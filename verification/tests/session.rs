//! Scenarios for the terminal session: construction against a
//! non-interactive output, command buffering and flushing, resize
//! bookkeeping, the centering arithmetic and the color mapping.

use tanmatsu::command::Command;
use tanmatsu::event::Event;
use tanmatsu::translate::RawEvent;
use tanmatsu::util::{adopt_size, decimal_string, Color, DriverColor, Point, Size};
use tanmatsu::Terminal;

fn session(width: u16, height: u16) -> Terminal {
    Terminal::with_size(std::io::stdout(), Size::new(width, height))
}

#[test]
fn construction_fails_off_a_terminal() {
    // The test harness runs with standard output redirected, so the one
    // recoverable failure shows up here: the distinguished non-terminal
    // error, with no command buffered or issued.
    let result = Terminal::new(std::io::stdout());
    assert!(matches!(result, Err(tanmatsu::NotTTY { .. })));
}

#[test]
fn resize_notification_updates_cached_size() {
    let mut terminal = session(80, 24);
    let event = terminal.handle_notification(RawEvent::Resize { width: 120, height: 40 });
    assert_eq!(event, Some(Event::Resize));
    assert_eq!(terminal.size, Size { width: 120, height: 40 });
}

#[test]
fn zero_sized_resize_is_not_surfaced() {
    // A zero dimension reports a transient, unqueryable state: the event
    // is still delivered, but the cached size stands.
    let mut terminal = session(80, 24);
    let event = terminal.handle_notification(RawEvent::Resize { width: 0, height: 40 });
    assert_eq!(event, Some(Event::Resize));
    assert_eq!(terminal.size, Size { width: 80, height: 24 });

    let event = terminal.handle_notification(RawEvent::Resize { width: 120, height: 0 });
    assert_eq!(event, Some(Event::Resize));
    assert_eq!(terminal.size, Size { width: 80, height: 24 });
}

#[test]
fn positive_driver_answer_is_adopted_verbatim() {
    // The rule `new` and `size` apply to the driver's answer: a real grid
    // is taken over unchanged, never substituted.
    let cached = Size { width: 80, height: 24 };
    assert_eq!(
        adopt_size(Size { width: 120, height: 40 }, cached),
        Size { width: 120, height: 40 },
    );
    assert_eq!(adopt_size(Size { width: 1, height: 1 }, cached), Size { width: 1, height: 1 });
}

#[test]
fn zero_sized_driver_answer_falls_back() {
    let cached = Size { width: 80, height: 24 };
    assert_eq!(adopt_size(Size { width: 0, height: 40 }, cached), cached);
    assert_eq!(adopt_size(Size { width: 120, height: 0 }, cached), cached);
    assert_eq!(adopt_size(Size { width: 0, height: 0 }, cached), cached);
}

#[test]
fn non_resize_notification_leaves_cached_size() {
    let mut terminal = session(80, 24);
    let event = terminal.handle_notification(RawEvent::Other);
    assert_eq!(event, None);
    assert_eq!(terminal.size, Size { width: 80, height: 24 });
}

#[test]
fn centered_border_point_even_dimensions() {
    let terminal = session(80, 24);
    let point = terminal.get_centered_border_point(&Size { width: 20, height: 10 });
    assert_eq!(point, Point { x: 30, y: 7 });
}

#[test]
fn centered_border_point_odd_dimensions() {
    let terminal = session(81, 25);
    let point = terminal.get_centered_border_point(&Size { width: 20, height: 11 });
    assert_eq!(point, Point { x: 30, y: 7 });
}

#[test]
fn get_center_is_half_width_full_height() {
    let terminal = session(81, 25);
    assert_eq!(terminal.get_center(), Point { x: 40, y: 25 });
}

#[test]
fn initialization_commands_in_order_of_entry() {
    let mut terminal = session(80, 24);
    terminal.enter_alternate_dimension();
    terminal.enable_raw_mode();
    terminal.enable_mouse_capture();
    terminal.hide_cursor();
    assert_eq!(
        terminal.pending,
        vec![
            Command::EnterAlternateScreen,
            Command::EnableRawMode,
            Command::EnableMouseCapture,
            Command::HideCursor,
        ],
    );
}

#[test]
fn deinitialization_reverses_the_entry_order() {
    let mut enter = session(80, 24);
    enter.enter_alternate_dimension();
    enter.enable_raw_mode();
    enter.enable_mouse_capture();
    enter.hide_cursor();

    let mut leave = session(80, 24);
    leave.show_cursor();
    leave.disable_mouse_capture();
    leave.disable_raw_mode();
    leave.exit_alternate_dimension();

    let inverse = |command: &Command| match command {
        Command::EnterAlternateScreen => Command::LeaveAlternateScreen,
        Command::EnableRawMode => Command::DisableRawMode,
        Command::EnableMouseCapture => Command::DisableMouseCapture,
        Command::HideCursor => Command::ShowCursor,
        _ => panic!("not a mode entry"),
    };
    let expected: Vec<Command> = enter.pending.iter().rev().map(inverse).collect();
    assert_eq!(leave.pending, expected);
}

#[test]
fn write_and_write_bytes_buffer_one_command_each() {
    let mut terminal = session(80, 24);
    terminal.write("hello");
    terminal.write_bytes(&[1, 2, 3]);
    assert_eq!(
        terminal.pending,
        vec![Command::Write("hello".to_string()), Command::WriteBytes(vec![1, 2, 3])],
    );
}

#[test]
fn cursor_and_style_operations_buffer_one_command_each() {
    let mut terminal = session(80, 24);
    terminal.set_title("editor");
    terminal.set_cursor(Point { x: 2, y: 5 });
    terminal.move_cursor_left(1);
    terminal.move_cursor_right(2);
    terminal.move_cursor_up(3);
    terminal.move_cursor_down(4);
    terminal.save_cursor_point();
    terminal.restore_cursor_point();
    terminal.set_foreground_color(Color::Red);
    terminal.set_background_color(Color::Byte(200));
    terminal.enable_italic();
    terminal.disable_italic();
    terminal.reset_colors();
    terminal.clear();
    terminal.clear_from_cursor_to_end();
    assert_eq!(
        terminal.pending,
        vec![
            Command::SetTitle("editor".to_string()),
            Command::SetCursor(Point { x: 2, y: 5 }),
            Command::MoveLeft(1),
            Command::MoveRight(2),
            Command::MoveUp(3),
            Command::MoveDown(4),
            Command::SavePosition,
            Command::RestorePosition,
            Command::SetForegroundColor(Color::Red),
            Command::SetBackgroundColor(Color::Byte(200)),
            Command::EnableItalic,
            Command::DisableItalic,
            Command::ResetColors,
            Command::Clear,
            Command::ClearFromCursorToEnd,
        ],
    );
}

#[test]
fn flush_performs_buffered_text_and_clears_the_buffer() {
    let mut terminal = session(80, 24);
    terminal.write("hello");
    terminal.flush();
    assert!(terminal.pending.is_empty());
    // The counter moves only in diagnostic mode once initialized.
    assert_eq!(terminal.flush_count, 0);
}

#[test]
fn diagnostic_overlay_counts_and_rewrites() {
    let mut terminal = session(80, 24);
    terminal.set_diagnostic(true);
    // Put the session past initialization by hand; entering the real
    // terminal modes is not possible off a terminal.
    terminal.initialized = true;

    terminal.write("x");
    terminal.flush();
    assert_eq!(terminal.flush_count, 1);
    assert_eq!(
        terminal.pending,
        vec![
            Command::SavePosition,
            Command::SetCursor(Point { x: 0, y: 0 }),
            Command::Write("Flush count: 1".to_string()),
            Command::RestorePosition,
        ],
    );

    // The next flush performs the overlay and queues a fresh one with the
    // incremented counter.
    terminal.flush();
    assert_eq!(terminal.flush_count, 2);
    assert_eq!(terminal.pending[2], Command::Write("Flush count: 2".to_string()));
}

#[test]
fn overlay_never_runs_before_initialization() {
    let mut terminal = session(80, 24);
    terminal.set_diagnostic(true);
    terminal.write("x");
    terminal.flush();
    assert_eq!(terminal.flush_count, 0);
    assert!(terminal.pending.is_empty());
}

#[test]
fn color_mapping_is_total_and_exact() {
    assert_eq!(Terminal::convert_color(Color::Black), DriverColor::Ansi(0));
    assert_eq!(Terminal::convert_color(Color::DarkRed), DriverColor::Ansi(1));
    assert_eq!(Terminal::convert_color(Color::DarkGreen), DriverColor::Ansi(2));
    assert_eq!(Terminal::convert_color(Color::DarkYellow), DriverColor::Ansi(3));
    assert_eq!(Terminal::convert_color(Color::DarkBlue), DriverColor::Ansi(4));
    assert_eq!(Terminal::convert_color(Color::DarkMagenta), DriverColor::Ansi(5));
    assert_eq!(Terminal::convert_color(Color::DarkCyan), DriverColor::Ansi(6));
    assert_eq!(Terminal::convert_color(Color::Gray), DriverColor::Ansi(7));
    assert_eq!(Terminal::convert_color(Color::DarkGray), DriverColor::Ansi(8));
    assert_eq!(Terminal::convert_color(Color::Red), DriverColor::Ansi(9));
    assert_eq!(Terminal::convert_color(Color::Green), DriverColor::Ansi(10));
    assert_eq!(Terminal::convert_color(Color::Yellow), DriverColor::Ansi(11));
    assert_eq!(Terminal::convert_color(Color::Blue), DriverColor::Ansi(12));
    assert_eq!(Terminal::convert_color(Color::Magenta), DriverColor::Ansi(13));
    assert_eq!(Terminal::convert_color(Color::Cyan), DriverColor::Ansi(14));
    assert_eq!(Terminal::convert_color(Color::White), DriverColor::Ansi(15));
    assert_eq!(Terminal::convert_color(Color::Byte(200)), DriverColor::Ansi(200));
    assert_eq!(
        Terminal::convert_color(Color::Rgb { r: 10, g: 20, b: 30 }),
        DriverColor::Rgb(10, 20, 30),
    );
}

#[test]
fn decimal_rendering_is_exact() {
    assert_eq!(decimal_string(0), "0");
    assert_eq!(decimal_string(7), "7");
    assert_eq!(decimal_string(10), "10");
    assert_eq!(decimal_string(120), "120");
    assert_eq!(decimal_string(98765), "98765");
    assert_eq!(decimal_string(usize::MAX), "18446744073709551615");
}

#[test]
fn fresh_session_state() {
    let terminal = session(80, 24);
    assert!(!terminal.is_initialized());
    assert!(terminal.pending.is_empty());
    assert_eq!(terminal.flush_count, 0);
    assert_eq!(terminal.size, Size { width: 80, height: 24 });
}
