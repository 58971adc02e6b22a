//! A terminal-session control layer for full-screen console applications.
//!
//! The library owns the terminal's mode state (raw vs. cooked input, the
//! alternate screen buffer, cursor visibility, mouse capture) across the
//! lifetime of a program, and normalizes driver-level input notifications
//! into a single event model.
//!
//! Every operation against the terminal issues exactly one buffered
//! [`command::Command`]; nothing reaches the driver until [`Terminal::flush`]
//! performs the buffered commands in order. The contracts below track two
//! sequences of command models: what is still queued and what has been
//! issued to the driver by flushes.

pub mod command;
mod driver;
pub mod event;
mod input;
mod ops;
pub mod translate;
pub mod util;

use crate::command::{Command, CommandModel};
use crate::util::{adopt_size, decimal_string, spec_decimal, Point, Size};
use vstd::prelude::*;
use vstd::string::StringExecFns;

verus! {

/// The commands `initialize` queues, in order of entry: alternate screen,
/// raw input mode, mouse capture, hidden cursor.
pub open spec fn init_commands() -> Seq<CommandModel> {
    seq![
        CommandModel::EnterAlternateScreen,
        CommandModel::EnableRawMode,
        CommandModel::EnableMouseCapture,
        CommandModel::HideCursor,
    ]
}

/// The commands `deinitialize` queues: the exact inverse of every mode
/// entered by `initialize`, in reverse order of entry.
pub open spec fn deinit_commands() -> Seq<CommandModel> {
    seq![
        CommandModel::ShowCursor,
        CommandModel::DisableMouseCapture,
        CommandModel::DisableRawMode,
        CommandModel::LeaveAlternateScreen,
    ]
}

/// The inverse of a mode-toggle command; commands that toggle no mode are
/// their own counterpart.
pub open spec fn toggle_inverse(c: CommandModel) -> CommandModel {
    match c {
        CommandModel::EnterAlternateScreen => CommandModel::LeaveAlternateScreen,
        CommandModel::LeaveAlternateScreen => CommandModel::EnterAlternateScreen,
        CommandModel::EnableRawMode => CommandModel::DisableRawMode,
        CommandModel::DisableRawMode => CommandModel::EnableRawMode,
        CommandModel::EnableMouseCapture => CommandModel::DisableMouseCapture,
        CommandModel::DisableMouseCapture => CommandModel::EnableMouseCapture,
        CommandModel::ShowCursor => CommandModel::HideCursor,
        CommandModel::HideCursor => CommandModel::ShowCursor,
        _ => c,
    }
}

/// Deinitialization undoes initialization symmetrically: the commands it
/// queues are exactly the inverses of the commands `initialize` queues,
/// in reverse order of entry.
pub proof fn lemma_mode_toggle_symmetry()
    ensures
        deinit_commands() == init_commands().reverse().map_values(
            |c: CommandModel| toggle_inverse(c),
        ),
{
    assert(deinit_commands() =~= init_commands().reverse().map_values(
        |c: CommandModel| toggle_inverse(c),
    ));
}

/// The label of the diagnostic overlay line.
pub open spec fn flush_label() -> Seq<char> {
    "Flush count: "@
}

/// The diagnostic overlay queued after a flush of an initialized session in
/// diagnostic mode: the flush counter is written to the top-left cell under
/// save/restore-cursor bracketing, so the caller's cursor position is
/// unaffected.
pub open spec fn overlay_commands(n: nat) -> Seq<CommandModel> {
    seq![
        CommandModel::SavePosition,
        CommandModel::SetCursor(Point { x: 0, y: 0 }),
        CommandModel::Write(flush_label() + spec_decimal(n)),
        CommandModel::RestorePosition,
    ]
}

/// The distinguished construction failure: the output channel is not
/// attached to an interactive terminal.
#[derive(Debug)]
#[non_exhaustive]
pub struct NotTTY;

/// A terminal session over the process's standard output.
///
/// Every program can have only a single instance for writing: the output
/// handle is owned exclusively by the session and never duplicated, since
/// buffered writes are not safe to interleave from two owners.
pub struct Terminal {
    /// The exclusively owned output channel. It is never duplicated by
    /// the session: buffered writes are not safe to interleave from two
    /// owners. The type does not enforce this — any code can derive
    /// another handle to standard output — so the single-writer rule is
    /// kept by convention: one session per process, and collaborators
    /// reach the channel only through the session.
    pub out: std::io::Stdout,
    /// The last known dimensions, updated by resize notifications.
    pub size: Size,
    /// Commands buffered since the last flush, oldest first.
    pub pending: Vec<Command>,
    /// How many flushes have completed while the session was initialized
    /// and in diagnostic mode.
    pub flush_count: usize,
    /// The lifecycle flag: restoration side effects run only on a session
    /// that actually entered the terminal modes.
    pub initialized: bool,
    /// Whether the diagnostic flush-counter overlay is switched on.
    pub diagnostic: bool,
    /// The models of all commands performed against the driver by
    /// flushes, in order.
    pub history: Ghost<Seq<CommandModel>>,
}

impl Terminal {
    /// The models of the commands buffered and not yet flushed.
    pub open spec fn queued(self) -> Seq<CommandModel> {
        self.pending.deep_view()
    }

    /// The models of all commands performed against the driver by flushes,
    /// in order.
    pub open spec fn issued(self) -> Seq<CommandModel> {
        self.history@
    }

    /// The lifecycle flag: whether `initialize` has completed and
    /// `deinitialize` has not run since.
    pub open spec fn spec_initialized(self) -> bool {
        self.initialized
    }

    /// Whether the diagnostic flush-counter overlay is switched on.
    pub open spec fn spec_diagnostic(self) -> bool {
        self.diagnostic
    }

    /// The diagnostic overlay runs only when the session is initialized,
    /// never before `initialize` completes.
    pub open spec fn overlay_due(self) -> bool {
        self.spec_diagnostic() && self.spec_initialized()
    }

    /// One command was queued and nothing else changed.
    pub open spec fn queue_step(pre: Terminal, post: Terminal, c: CommandModel) -> bool {
        &&& post.queued() == pre.queued().push(c)
        &&& post.issued() == pre.issued()
        &&& post.size == pre.size
        &&& post.flush_count == pre.flush_count
        &&& post.spec_initialized() == pre.spec_initialized()
        &&& post.spec_diagnostic() == pre.spec_diagnostic()
    }

    /// Pushes one command into the output buffer.
    pub(crate) fn queue(&mut self, command: Command)
        ensures
            Terminal::queue_step(*old(self), *final(self), command@),
    {
        self.pending.push(command);
        proof {
            assert(self.queued() =~= old(self).queued().push(command@));
        }
    }

    /// Constructs a session over the given output handle, trusting the
    /// caller for the current dimensions instead of querying the driver.
    /// The dimensions must be a real grid: a zero-sized terminal is never
    /// surfaced.
    pub fn with_size(out: std::io::Stdout, size: Size) -> (t: Terminal)
        requires
            size.is_positive(),
        ensures
            t.size == size,
            t.queued() == Seq::<CommandModel>::empty(),
            t.issued() == Seq::<CommandModel>::empty(),
            t.flush_count == 0,
            !t.spec_initialized(),
            !t.spec_diagnostic(),
    {
        let t = Terminal {
            out,
            size,
            pending: Vec::new(),
            flush_count: 0,
            initialized: false,
            diagnostic: false,
            history: Ghost(Seq::empty()),
        };
        proof {
            assert(t.queued() =~= Seq::<CommandModel>::empty());
        }
        t
    }

    /// Constructs the session, taking exclusive ownership of the output
    /// channel.
    ///
    /// Fails with [`NotTTY`] when the output channel is not attached to an
    /// interactive terminal — the one recoverable failure of the session —
    /// and performs no mode-changing output in that case. On success the
    /// current terminal dimensions are captured, no command is buffered or
    /// issued yet, and the session is not initialized.
    ///
    /// The driver's answer is taken over by [`adopt_size`]: a positive
    /// answer is captured verbatim. A zero-sized answer is a transient,
    /// unqueryable state and is never cached: the session then starts
    /// from the smallest real grid until a resize notification or a
    /// later query reports the true dimensions.
    pub fn new(out: std::io::Stdout) -> (r: Result<Terminal, NotTTY>)
        ensures
            r matches Ok(t) ==> {
                &&& t.size.is_positive()
                &&& t.queued() == Seq::<CommandModel>::empty()
                &&& t.issued() == Seq::<CommandModel>::empty()
                &&& t.flush_count == 0
                &&& !t.spec_initialized()
                &&& !t.spec_diagnostic()
            },
    {
        if !driver::output_is_terminal(&out) {
            return Err(NotTTY);
        }
        let queried = driver::query_size();
        let size = adopt_size(queried, Size { width: 1, height: 1 });
        Ok(Terminal::with_size(out, size))
    }

    /// Switches the diagnostic flush-counter overlay on or off. The
    /// overlay is a build-profile concern: callers enable it for debug or
    /// diagnostic builds only.
    pub fn set_diagnostic(&mut self, enabled: bool)
        ensures
            final(self).spec_diagnostic() == enabled,
            final(self).queued() == old(self).queued(),
            final(self).issued() == old(self).issued(),
            final(self).size == old(self).size,
            final(self).flush_count == old(self).flush_count,
            final(self).spec_initialized() == old(self).spec_initialized(),
    {
        self.diagnostic = enabled;
    }

    /// Whether `initialize` has completed and `deinitialize` has not run
    /// since.
    pub fn is_initialized(&self) -> (b: bool)
        ensures
            b == self.spec_initialized(),
    {
        self.initialized
    }

    /// Buffers text; never flushed implicitly.
    pub fn write(&mut self, string: &str)
        ensures
            Terminal::queue_step(*old(self), *final(self), CommandModel::Write(string@)),
    {
        self.queue(Command::Write(string.to_owned()));
    }

    /// Buffers raw bytes; never flushed implicitly.
    pub fn write_bytes(&mut self, bytes: &[u8])
        ensures
            Terminal::queue_step(*old(self), *final(self), CommandModel::WriteBytes(bytes@)),
    {
        self.queue(Command::WriteBytes(vstd::slice::slice_to_vec(bytes)));
    }

    /// Performs every buffered command against the driver, in order, and
    /// flushes the output channel.
    ///
    /// In diagnostic mode, and only once the session is initialized, one
    /// more flush is counted and the overlay that rewrites the counter at
    /// the top-left cell is queued for the next flush.
    pub fn flush(&mut self)
        requires
            old(self).overlay_due() ==> old(self).flush_count < usize::MAX,
        ensures
            final(self).issued() == old(self).issued() + old(self).queued(),
            final(self).size == old(self).size,
            final(self).spec_initialized() == old(self).spec_initialized(),
            final(self).spec_diagnostic() == old(self).spec_diagnostic(),
            old(self).overlay_due() ==> {
                &&& final(self).flush_count == old(self).flush_count + 1
                &&& final(self).queued() == overlay_commands((old(self).flush_count + 1) as nat)
            },
            !old(self).overlay_due() ==> {
                &&& final(self).flush_count == old(self).flush_count
                &&& final(self).queued() == Seq::<CommandModel>::empty()
            },
    {
        let ghost pre = *self;
        let n = self.pending.len();
        let mut i: usize = 0;
        while i < n
            invariant
                i <= n,
                n == self.pending@.len(),
                self.pending == pre.pending,
                self.size == pre.size,
                self.flush_count == pre.flush_count,
                self.initialized == pre.initialized,
                self.diagnostic == pre.diagnostic,
                self.history == pre.history,
            decreases n - i,
        {
            perform(&mut self.out, &self.pending[i]);
            i += 1;
        }
        self.pending.clear();
        driver::flush_out(&mut self.out);
        self.history = Ghost(pre.history@ + pre.queued());
        proof {
            assert(self.queued() =~= Seq::<CommandModel>::empty());
        }
        if self.diagnostic && self.initialized {
            self.flush_count = self.flush_count + 1;
            self.queue(Command::SavePosition);
            self.queue(Command::SetCursor(Point { x: 0, y: 0 }));
            let mut text = "Flush count: ".to_owned();
            let count_text = decimal_string(self.flush_count);
            text.append(count_text.as_str());
            self.queue(Command::Write(text));
            self.queue(Command::RestorePosition);
            proof {
                assert(self.queued() =~= overlay_commands((pre.flush_count + 1) as nat));
            }
        }
    }

    /// Makes the terminal ready for drawing and input: enters the
    /// alternate screen buffer, enables raw input mode, enables mouse
    /// reporting, hides the cursor — in that order — and flushes.
    ///
    /// Idempotency is not guaranteed: calling this twice double-enters the
    /// modes. That is a caller contract, not a runtime-checked invariant.
    /// Restoration on abnormal termination is the hosting application's
    /// duty: it should install a process-wide hook that reaches the same
    /// terminal through a fresh handle and calls [`Terminal::deinitialize`]
    /// on a still-initialized session before the fault's default reporting
    /// runs.
    pub fn initialize(&mut self)
        requires
            old(self).overlay_due() ==> old(self).flush_count < usize::MAX,
        ensures
            final(self).spec_initialized(),
            final(self).spec_diagnostic() == old(self).spec_diagnostic(),
            final(self).size == old(self).size,
            final(self).issued() == old(self).issued() + old(self).queued() + init_commands(),
            old(self).overlay_due() ==> {
                &&& final(self).flush_count == old(self).flush_count + 1
                &&& final(self).queued() == overlay_commands((old(self).flush_count + 1) as nat)
            },
            !old(self).overlay_due() ==> {
                &&& final(self).flush_count == old(self).flush_count
                &&& final(self).queued() == Seq::<CommandModel>::empty()
            },
    {
        let ghost pre = *self;
        self.enter_alternate_dimension();
        self.enable_raw_mode();
        self.enable_mouse_capture();
        self.hide_cursor();
        proof {
            assert(self.queued() =~= pre.queued() + init_commands());
        }
        self.flush();
        self.initialized = true;
        proof {
            assert(self.issued() =~= pre.issued() + pre.queued() + init_commands());
        }
    }

    /// Restores the terminal: shows the cursor, disables mouse reporting,
    /// disables raw mode, leaves the alternate screen — the exact inverse
    /// sequence of [`Terminal::initialize`] — and flushes.
    ///
    /// Restoration never short-circuits. Queueing the four restoring
    /// commands cannot fail step by step, and when the flush performs
    /// them, a driver failure on any one of them is ignored rather than
    /// allowed to abort the sequence: leaving the terminal in raw or
    /// alternate mode is worse than one missed cosmetic command. This is
    /// also what makes the call safe after a partial initialization.
    pub fn deinitialize(&mut self)
        requires
            old(self).overlay_due() ==> old(self).flush_count < usize::MAX,
        ensures
            !final(self).spec_initialized(),
            final(self).spec_diagnostic() == old(self).spec_diagnostic(),
            final(self).size == old(self).size,
            final(self).issued() == old(self).issued() + old(self).queued() + deinit_commands(),
            old(self).overlay_due() ==> {
                &&& final(self).flush_count == old(self).flush_count + 1
                &&& final(self).queued() == overlay_commands((old(self).flush_count + 1) as nat)
            },
            !old(self).overlay_due() ==> {
                &&& final(self).flush_count == old(self).flush_count
                &&& final(self).queued() == Seq::<CommandModel>::empty()
            },
    {
        let ghost pre = *self;
        self.show_cursor();
        self.disable_mouse_capture();
        self.disable_raw_mode();
        self.exit_alternate_dimension();
        proof {
            assert(self.queued() =~= pre.queued() + deinit_commands());
        }
        self.flush();
        self.initialized = false;
        proof {
            assert(self.issued() =~= pre.issued() + pre.queued() + deinit_commands());
        }
    }

    /// The top-left point at which a box of the given size is centered
    /// within the cached dimensions. Integer division truncates, so the
    /// box is biased toward the top-left when a dimension does not split
    /// evenly.
    pub fn get_centered_border_point(&self, size: &Size) -> (p: Point)
        requires
            size.width / 2 <= self.size.width / 2,
            size.height / 2 <= self.size.height / 2,
        ensures
            p.x == self.size.width / 2 - size.width / 2,
            p.y == self.size.height / 2 - size.height / 2,
    {
        Point {
            x: self.size.width / 2 - size.width / 2,
            y: self.size.height / 2 - size.height / 2,
        }
    }

    /// The horizontal midpoint of the cached dimensions, at their full
    /// height.
    pub fn get_center(&self) -> (p: Point)
        ensures
            p.x == self.size.width / 2,
            p.y == self.size.height,
    {
        Point { x: self.size.width / 2, y: self.size.height }
    }
}

/// Performs one buffered command against the driver.
fn perform(out: &mut std::io::Stdout, command: &Command) {
    match command {
        Command::EnterAlternateScreen => driver::queue_enter_alternate_screen(out),
        Command::LeaveAlternateScreen => driver::queue_leave_alternate_screen(out),
        Command::EnableRawMode => driver::raw_mode_on(),
        Command::DisableRawMode => driver::raw_mode_off(),
        Command::EnableMouseCapture => driver::queue_enable_mouse_capture(out),
        Command::DisableMouseCapture => driver::queue_disable_mouse_capture(out),
        Command::ShowCursor => driver::queue_show_cursor(out),
        Command::HideCursor => driver::queue_hide_cursor(out),
        Command::SetTitle(title) => driver::queue_set_title(out, title.as_str()),
        Command::SetCursor(point) => driver::queue_move_to(out, point.x, point.y),
        Command::MoveLeft(cells) => driver::queue_move_left(out, *cells),
        Command::MoveRight(cells) => driver::queue_move_right(out, *cells),
        Command::MoveUp(cells) => driver::queue_move_up(out, *cells),
        Command::MoveDown(cells) => driver::queue_move_down(out, *cells),
        Command::SavePosition => driver::queue_save_position(out),
        Command::RestorePosition => driver::queue_restore_position(out),
        Command::SetForegroundColor(color) => match Terminal::convert_color(*color) {
            util::DriverColor::Ansi(value) => driver::queue_foreground_ansi(out, value),
            util::DriverColor::Rgb(r, g, b) => driver::queue_foreground_rgb(out, r, g, b),
        },
        Command::SetBackgroundColor(color) => match Terminal::convert_color(*color) {
            util::DriverColor::Ansi(value) => driver::queue_background_ansi(out, value),
            util::DriverColor::Rgb(r, g, b) => driver::queue_background_rgb(out, r, g, b),
        },
        Command::EnableItalic => driver::write_italic_on(out),
        Command::DisableItalic => driver::write_italic_off(out),
        Command::ResetColors => driver::queue_reset_colors(out),
        Command::Clear => driver::queue_clear_all(out),
        Command::ClearFromCursorToEnd => driver::queue_clear_to_end(out),
        Command::Write(text) => driver::write_bytes_out(out, text.as_str().as_bytes()),
        Command::WriteBytes(bytes) => driver::write_bytes_out(out, bytes.as_slice()),
    }
}

} // verus!
