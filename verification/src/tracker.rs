//! The session tracker: at most one open segment, closed or dropped by the
//! next focus change.

use vstd::prelude::*;
use crate::monitor::{ActivityEvent, EventView};
use crate::segment::{
    ActivitySegment,
    OpenSegment,
    OpenSegmentView,
    SegmentView,
    closed_at,
    emitted_view,
    opened_by,
};
use crate::timestamp::Timestamp;

verus! {

/// Follows the foreground window from one focus change to the next.
///
/// Its view is the segment now open, if any.
#[derive(Debug)]
pub struct SessionTracker {
    current: Option<OpenSegment>,
}

impl View for SessionTracker {
    type V = Option<OpenSegmentView>;

    closed spec fn view(&self) -> Option<OpenSegmentView> {
        match self.current {
            Some(open) => Some(open@),
            None => None,
        }
    }
}

/// What a tracker whose open segment is `current` emits when the next event
/// arrives at the instant `now`: nothing before the first event, and
/// otherwise what closing `current` at `now` yields.
pub open spec fn emission(current: Option<OpenSegmentView>, now: int) -> Option<SegmentView> {
    match current {
        Some(open) => closed_at(open, now),
        None => None,
    }
}

/// The open segment of a tracker after `event` arrived at the instant `now`,
/// whatever it held before.
pub open spec fn successor(event: EventView, now: int) -> Option<OpenSegmentView> {
    Some(opened_by(event, now))
}

impl SessionTracker {
    /// A tracker that has seen no event yet.
    pub fn new() -> (tracker: SessionTracker)
        ensures
            tracker@ is None,
    {
        SessionTracker { current: None }
    }

    /// The segment now open, if any.
    pub fn current(&self) -> (open: Option<&OpenSegment>)
        ensures
            open is Some <==> self@ is Some,
            open matches Some(segment) ==> self@ == Some(segment@),
    {
        self.current.as_ref()
    }

    /// Takes the focus change `event`, which arrived at `now`.
    ///
    /// The segment that was open ends at `now`: it is returned if it lasted
    /// a whole second or more, and dropped if not. Either way the tracker
    /// then holds one open segment, that of `event`, starting at `now`.
    pub fn on_event(&mut self, event: ActivityEvent, now: Timestamp) -> (emitted: Option<ActivitySegment>)
        ensures
            final(self)@ == successor(event@, now@),
            emitted_view(emitted) == emission(old(self)@, now@),
    {
        let previous: Option<OpenSegment> = self.current.take();
        self.current = Some(OpenSegment::open(event, now));
        match previous {
            Some(open) => open.close(now),
            None => None,
        }
    }
}

} // verus!
