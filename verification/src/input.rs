//! Reading and polling driver notifications through the event translator.

use crate::driver;
use crate::event::Event;
use crate::translate::{spec_translate, translate_notification, RawEvent};
use crate::util::{adopt_size, Size};
use crate::Terminal;
use vstd::prelude::*;

verus! {

/// How one raw notification takes a session from `pre` to `post` with
/// result `r`: the result is the translation of the notification, a resize
/// notification updates the cached dimensions as a side effect, and
/// nothing else of the session changes. A resize with a zero dimension
/// reports a transient, unqueryable state: it still yields the resize
/// event, but the cached dimensions stand and the zero is never surfaced.
pub open spec fn notification_step(
    pre: Terminal,
    post: Terminal,
    raw: RawEvent,
    r: Option<Event>,
) -> bool {
    &&& r == spec_translate(raw)
    &&& post.size == (match raw {
        RawEvent::Resize { width, height } => if width > 0 && height > 0 {
            Size { width, height }
        } else {
            pre.size
        },
        _ => pre.size,
    })
    &&& post.queued() == pre.queued()
    &&& post.issued() == pre.issued()
    &&& post.flush_count == pre.flush_count
    &&& post.spec_initialized() == pre.spec_initialized()
    &&& post.spec_diagnostic() == pre.spec_diagnostic()
}

impl Terminal {
    /// Applies one raw notification to the session: translates it and, for
    /// a resize notification reporting a real grid, updates the cached
    /// dimensions. The updated size must be read back from the session,
    /// never from the event, which carries no payload.
    pub fn handle_notification(&mut self, raw: RawEvent) -> (r: Option<Event>)
        ensures
            notification_step(*old(self), *final(self), raw, r),
            old(self).size.is_positive() ==> final(self).size.is_positive(),
    {
        if let RawEvent::Resize { width, height } = raw {
            if width > 0 && height > 0 {
                self.size = Size::new(width, height);
            }
        }
        translate_notification(&raw)
    }

    /// Blocks until one raw notification is available and applies it.
    /// Which notification arrives depends on the environment; whatever it
    /// is, the session changes only as one notification step allows, and
    /// the cached dimensions move only when the result is a resize event.
    pub fn read_event(&mut self) -> (r: Option<Event>)
        ensures
            exists|raw: RawEvent| notification_step(*old(self), *final(self), raw, r),
            r != Some(Event::Resize) ==> final(self).size == old(self).size,
            old(self).size.is_positive() ==> final(self).size.is_positive(),
            final(self).queued() == old(self).queued(),
            final(self).issued() == old(self).issued(),
            final(self).flush_count == old(self).flush_count,
            final(self).spec_initialized() == old(self).spec_initialized(),
            final(self).spec_diagnostic() == old(self).spec_diagnostic(),
    {
        let raw = driver::read_raw();
        self.handle_notification(raw)
    }

    /// Waits up to the given timeout for a raw notification. When none
    /// arrives in time — immediately for a zero-length timeout — nothing
    /// is returned and the session is left untouched; otherwise one
    /// notification is applied exactly as by [`Terminal::read_event`].
    pub fn poll_event(&mut self, timeout: std::time::Duration) -> (r: Option<Event>)
        ensures
            (*final(self) == *old(self) && r == None::<Event>) || exists|raw: RawEvent|
                notification_step(*old(self), *final(self), raw, r),
            r != Some(Event::Resize) ==> final(self).size == old(self).size,
            old(self).size.is_positive() ==> final(self).size.is_positive(),
            final(self).queued() == old(self).queued(),
            final(self).issued() == old(self).issued(),
            final(self).flush_count == old(self).flush_count,
            final(self).spec_initialized() == old(self).spec_initialized(),
            final(self).spec_diagnostic() == old(self).spec_diagnostic(),
    {
        if driver::poll_ready(timeout) {
            let raw = driver::read_raw();
            self.handle_notification(raw)
        } else {
            None
        }
    }

    /// Queries the driver for the current dimensions; independent of the
    /// cached value. Which dimensions the driver reports depends on the
    /// terminal alone; the answer is taken over by [`adopt_size`]: a
    /// positive answer is returned verbatim, while a zero-sized answer
    /// is a transient, unqueryable state that is never surfaced — the
    /// last known dimensions stand in for it, so a session whose cached
    /// size is a real grid is only ever told a real grid.
    pub fn size(&self) -> (r: Size)
        ensures
            self.size.is_positive() ==> r.is_positive(),
            !r.is_positive() ==> r == self.size,
    {
        let queried = driver::query_size();
        adopt_size(queried, self.size)
    }
}

} // verus!
