//! Segments of activity: the open one that the tracker holds, the finished
//! one that it emits, and the row that a finished one becomes in the store.

use vstd::prelude::*;
use crate::monitor::{ActivityEvent, EventView};
use crate::timestamp::{Timestamp, rfc3339_of, whole_seconds};

verus! {

/// The segment in progress: the window now in the foreground, and since when.
#[derive(Clone, Debug, PartialEq, Eq)]
pub struct OpenSegment {
    /// Caption of the window, as the event that opened the segment had it.
    pub title: String,
    /// Application that owns the window, as that event had it.
    pub process_name: String,
    /// Arrival time of the event that opened the segment.
    pub start_time: Timestamp,
}

/// An [`OpenSegment`] as text and a count of nanoseconds since the Unix epoch.
pub struct OpenSegmentView {
    pub title: Seq<char>,
    pub process_name: Seq<char>,
    pub start_time: int,
}

impl View for OpenSegment {
    type V = OpenSegmentView;

    open spec fn view(&self) -> OpenSegmentView {
        OpenSegmentView {
            title: self.title@,
            process_name: self.process_name@,
            start_time: self.start_time@,
        }
    }
}

/// A finished stretch of activity: one application and window, from
/// `start_time` to `end_time`. It always lasts at least one whole second.
#[derive(Debug, PartialEq, Eq)]
pub struct ActivitySegment {
    process_name: String,
    window_title: String,
    start_time: Timestamp,
    end_time: Timestamp,
}

/// An [`ActivitySegment`] as text and counts of nanoseconds since the Unix
/// epoch.
pub struct SegmentView {
    pub process_name: Seq<char>,
    pub window_title: Seq<char>,
    pub start_time: int,
    pub end_time: int,
}

impl View for ActivitySegment {
    type V = SegmentView;

    closed spec fn view(&self) -> SegmentView {
        SegmentView {
            process_name: self.process_name@,
            window_title: self.window_title@,
            start_time: self.start_time@,
            end_time: self.end_time@,
        }
    }
}

/// The segment that `event` opens when it arrives at the instant `now`.
pub open spec fn opened_by(event: EventView, now: int) -> OpenSegmentView {
    OpenSegmentView { title: event.title, process_name: event.process_name, start_time: now }
}

/// The length in whole seconds of the stretch from `start` to `end`.
pub open spec fn duration_between(start: int, end: int) -> int {
    whole_seconds(end - start)
}

/// What closing the segment `open` at the instant `now` yields: the finished
/// segment up to `now` where it lasted a whole second or more, and nothing
/// where it was shorter.
pub open spec fn closed_at(open: OpenSegmentView, now: int) -> Option<SegmentView> {
    if duration_between(open.start_time, now) > 0 {
        Some(
            SegmentView {
                process_name: open.process_name,
                window_title: open.title,
                start_time: open.start_time,
                end_time: now,
            },
        )
    } else {
        None
    }
}

/// The view of a segment that may be absent.
pub open spec fn emitted_view(emitted: Option<ActivitySegment>) -> Option<SegmentView> {
    match emitted {
        Some(segment) => Some(segment@),
        None => None,
    }
}

impl OpenSegment {
    /// Opens a segment for `event`, starting at its arrival time `now`.
    pub fn open(event: ActivityEvent, now: Timestamp) -> (opened: OpenSegment)
        ensures
            opened@ == opened_by(event@, now@),
    {
        OpenSegment { title: event.title, process_name: event.process_name, start_time: now }
    }

    /// Ends the segment at `now`. A segment that lasted less than one whole
    /// second is dropped: its time is recorded nowhere.
    pub fn close(self, now: Timestamp) -> (finished: Option<ActivitySegment>)
        ensures
            emitted_view(finished) == closed_at(self@, now@),
    {
        let duration: i64 = now.whole_seconds_since(&self.start_time);
        if duration > 0 {
            Some(
                ActivitySegment {
                    process_name: self.process_name,
                    window_title: self.title,
                    start_time: self.start_time,
                    end_time: now,
                },
            )
        } else {
            None
        }
    }
}

/// One row of the activity log, as the store takes it.
#[derive(Clone, Debug, PartialEq, Eq)]
pub struct ActivityRow {
    pub process_name: String,
    pub window_title: String,
    /// Start of the segment as RFC 3339 text.
    pub start_time: String,
    /// End of the segment as RFC 3339 text; always present for a finished
    /// segment.
    pub end_time: Option<String>,
}

/// The text of an [`ActivityRow`].
pub struct RowView {
    pub process_name: Seq<char>,
    pub window_title: Seq<char>,
    pub start_time: Seq<char>,
    pub end_time: Option<Seq<char>>,
}

impl View for ActivityRow {
    type V = RowView;

    open spec fn view(&self) -> RowView {
        RowView {
            process_name: self.process_name@,
            window_title: self.window_title@,
            start_time: self.start_time@,
            end_time: match self.end_time {
                Some(text) => Some(text@),
                None => None,
            },
        }
    }
}

/// The row that stands for `segment`.
pub open spec fn row_of(segment: SegmentView) -> RowView {
    RowView {
        process_name: segment.process_name,
        window_title: segment.window_title,
        start_time: rfc3339_of(segment.start_time),
        end_time: Some(rfc3339_of(segment.end_time)),
    }
}

impl ActivityRow {
    /// Puts a row together from its four texts.
    pub fn new(
        process_name: String,
        window_title: String,
        start_time: String,
        end_time: String,
    ) -> (row: ActivityRow)
        ensures
            row@ == (RowView {
                process_name: process_name@,
                window_title: window_title@,
                start_time: start_time@,
                end_time: Some(end_time@),
            }),
    {
        ActivityRow { process_name, window_title, start_time, end_time: Some(end_time) }
    }
}

impl ActivitySegment {
    #[verifier::type_invariant]
    spec fn lasts_a_second(self) -> bool {
        duration_between(self.start_time@, self.end_time@) >= 1
    }

    /// Application that owned the window.
    pub fn process_name(&self) -> (name: &String)
        ensures
            name@ == self@.process_name,
    {
        &self.process_name
    }

    /// Caption of the window.
    pub fn window_title(&self) -> (title: &String)
        ensures
            title@ == self@.window_title,
    {
        &self.window_title
    }

    /// When the window came to the foreground.
    pub fn start_time(&self) -> (at: Timestamp)
        ensures
            at@ == self@.start_time,
    {
        self.start_time
    }

    /// When the next window took the foreground.
    pub fn end_time(&self) -> (at: Timestamp)
        ensures
            at@ == self@.end_time,
    {
        self.end_time
    }

    /// Length of the segment in whole seconds: at least one.
    pub fn duration_seconds(&self) -> (seconds: i64)
        ensures
            seconds == duration_between(self@.start_time, self@.end_time),
            seconds >= 1,
    {
        proof {
            use_type_invariant(self);
        }
        self.end_time.whole_seconds_since(&self.start_time)
    }

    /// The row under which the store keeps this segment.
    pub fn to_row(&self) -> (row: ActivityRow)
        ensures
            row@ == row_of(self@),
    {
        let start: String = self.start_time.to_rfc3339();
        let end: String = self.end_time.to_rfc3339();
        ActivityRow::new(self.process_name.clone(), self.window_title.clone(), start, end)
    }
}

} // verus!
