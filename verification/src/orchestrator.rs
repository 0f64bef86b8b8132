//! The consume loop, one decision at a time.
//!
//! The loop itself blocks on a channel, reads the clock and writes to a
//! store, none of which happens here. The caller does each of these and
//! tells the [`Orchestrator`] what came of it; the orchestrator answers with
//! what to do next.

use vstd::prelude::*;
use crate::monitor::{ActivityEvent, EventView};
use crate::segment::{ActivitySegment, OpenSegmentView, SegmentView};
use crate::timestamp::Timestamp;
use crate::tracker::{SessionTracker, emission, successor};

verus! {

/// What the caller reports to the orchestrator.
pub enum LoopInput {
    /// The channel handed over `event`; `now` is the wall-clock time read
    /// at once on receipt, which is the boundary between two segments.
    Event { event: ActivityEvent, now: Timestamp },
    /// The channel is closed for good: the producer is gone.
    ChannelClosed,
    /// The store took the segment that was last handed out.
    Stored,
    /// The store failed to take the segment that was last handed out.
    StoreFailed,
}

/// What the orchestrator asks of the caller.
#[derive(Debug, PartialEq, Eq)]
pub enum LoopAction {
    /// Wait on the channel for the next event.
    Receive,
    /// Offer this segment to the store, once, and report the outcome.
    Record(ActivitySegment),
    /// Leave the loop.
    Exit,
}

/// A [`LoopInput`] as plain values.
pub enum InputView {
    Event { event: EventView, now: int },
    ChannelClosed,
    Stored,
    StoreFailed,
}

/// A [`LoopAction`] as plain values.
pub enum ActionView {
    Receive,
    Record(SegmentView),
    Exit,
}

impl View for LoopInput {
    type V = InputView;

    open spec fn view(&self) -> InputView {
        match *self {
            LoopInput::Event { event, now } => InputView::Event { event: event@, now: now@ },
            LoopInput::ChannelClosed => InputView::ChannelClosed,
            LoopInput::Stored => InputView::Stored,
            LoopInput::StoreFailed => InputView::StoreFailed,
        }
    }
}

impl View for LoopAction {
    type V = ActionView;

    open spec fn view(&self) -> ActionView {
        match *self {
            LoopAction::Receive => ActionView::Receive,
            LoopAction::Record(segment) => ActionView::Record(segment@),
            LoopAction::Exit => ActionView::Exit,
        }
    }
}

/// The state of the loop: the tracker's open segment, and whether the loop
/// has ended.
pub struct LoopState {
    pub open: Option<OpenSegmentView>,
    pub stopped: bool,
}

/// The state that follows `state` on `input`.
///
/// An event replaces the open segment. A closed channel ends the loop and
/// leaves the open segment where it is, never to be emitted. The outcome of
/// a store call changes nothing, and neither does anything that comes after
/// the loop has ended.
pub open spec fn next_state(state: LoopState, input: InputView) -> LoopState {
    if state.stopped {
        state
    } else {
        match input {
            InputView::Event { event, now } => LoopState {
                open: successor(event, now),
                stopped: false,
            },
            InputView::ChannelClosed => LoopState { open: state.open, stopped: true },
            InputView::Stored => state,
            InputView::StoreFailed => state,
        }
    }
}

/// The action with which the loop answers `input` in `state`.
///
/// An event leads to a store call exactly when the tracker emits a segment
/// for it. After a store call the loop waits for the next event, whether the
/// call succeeded or failed. A closed channel, and anything after it, ends
/// the loop.
pub open spec fn action_for(state: LoopState, input: InputView) -> ActionView {
    if state.stopped {
        ActionView::Exit
    } else {
        match input {
            InputView::Event { event, now } => match emission(state.open, now) {
                Some(segment) => ActionView::Record(segment),
                None => ActionView::Receive,
            },
            InputView::ChannelClosed => ActionView::Exit,
            InputView::Stored => ActionView::Receive,
            InputView::StoreFailed => ActionView::Receive,
        }
    }
}

/// Drives a [`SessionTracker`] from the reports of the consume loop.
#[derive(Debug)]
pub struct Orchestrator {
    tracker: SessionTracker,
    stopped: bool,
}

impl View for Orchestrator {
    type V = LoopState;

    closed spec fn view(&self) -> LoopState {
        LoopState { open: self.tracker@, stopped: self.stopped }
    }
}

impl Orchestrator {
    /// An orchestrator at the start of the loop, with an empty tracker.
    pub fn new() -> (orchestrator: Orchestrator)
        ensures
            orchestrator@ == (LoopState { open: None, stopped: false }),
    {
        Orchestrator { tracker: SessionTracker::new(), stopped: false }
    }

    /// The tracker that the loop drives.
    pub fn tracker(&self) -> (tracker: &SessionTracker)
        ensures
            tracker@ == self@.open,
    {
        &self.tracker
    }

    /// Whether the loop has ended.
    pub fn is_stopped(&self) -> (stopped: bool)
        ensures
            stopped == self@.stopped,
    {
        self.stopped
    }

    /// Takes one report from the loop and says what to do next.
    pub fn step(&mut self, input: LoopInput) -> (action: LoopAction)
        ensures
            final(self)@ == next_state(old(self)@, input@),
            action@ == action_for(old(self)@, input@),
    {
        if self.stopped {
            return LoopAction::Exit;
        }
        match input {
            LoopInput::Event { event, now } => {
                match self.tracker.on_event(event, now) {
                    Some(segment) => LoopAction::Record(segment),
                    None => LoopAction::Receive,
                }
            },
            LoopInput::ChannelClosed => {
                self.stopped = true;
                LoopAction::Exit
            },
            LoopInput::Stored => LoopAction::Receive,
            LoopInput::StoreFailed => LoopAction::Receive,
        }
    }
}

} // verus!
