//! What holds of the tracker and of the loop over whole streams of events.
//!
//! Each statement here is proved from the functions that the contracts of
//! [`SessionTracker::on_event`](crate::tracker::SessionTracker::on_event) and
//! [`Orchestrator::step`](crate::orchestrator::Orchestrator::step) are
//! written in.

use vstd::prelude::*;
use crate::monitor::EventView;
use crate::orchestrator::{ActionView, InputView, LoopState, action_for, next_state};
use crate::segment::{OpenSegmentView, SegmentView, closed_at, duration_between, opened_by};
use crate::timestamp::{NANOS_PER_SECOND, whole_seconds};
use crate::tracker::{emission, successor};

verus! {

/// An event together with the instant at which it arrived.
pub struct Arrival {
    pub event: EventView,
    pub at: int,
}

/// The open segment of a tracker that held `start` and then took `arrivals`
/// one after the other: that of the last arrival, since every event puts its
/// own segment in place of the one that was open.
pub open spec fn open_after(
    start: Option<OpenSegmentView>,
    arrivals: Seq<Arrival>,
) -> Option<OpenSegmentView>
{
    if arrivals.len() == 0 {
        start
    } else {
        successor(arrivals.last().event, arrivals.last().at)
    }
}

/// What a tracker that held `start` gave back for each of `arrivals`, taken
/// one after the other: entry `k` is what it emitted on arrival `k`.
pub open spec fn emissions(
    start: Option<OpenSegmentView>,
    arrivals: Seq<Arrival>,
) -> Seq<Option<SegmentView>>
    decreases arrivals.len(),
{
    if arrivals.len() == 0 {
        Seq::empty()
    } else {
        let earlier = arrivals.drop_last();
        emissions(start, earlier).push(emission(open_after(start, earlier), arrivals.last().at))
    }
}

/// The finished segment that spans from `opening` to the arrival `closing`.
pub open spec fn span(opening: Arrival, closing: Arrival) -> SegmentView {
    SegmentView {
        process_name: opening.event.process_name,
        window_title: opening.event.title,
        start_time: opening.at,
        end_time: closing.at,
    }
}

/// A span counts a positive number of whole seconds exactly when it is one
/// second long or longer: that is the line between a segment that is kept
/// and one that is dropped.
pub proof fn law_whole_second_threshold(nanos: int)
    ensures
        whole_seconds(nanos) > 0 <==> nanos >= NANOS_PER_SECOND,
        whole_seconds(nanos) <= 0 <==> nanos < NANOS_PER_SECOND,
{
}

/// After any event the tracker holds exactly one open segment, and it is
/// that of the event: the one it held before is gone, whatever it was.
pub proof fn law_one_open_segment(start: Option<OpenSegmentView>, arrivals: Seq<Arrival>)
    requires
        arrivals.len() > 0,
    ensures
        open_after(start, arrivals) == Some(opened_by(arrivals.last().event, arrivals.last().at)),
{
}

/// Two events in a row that arrive a second or more apart: on the second
/// the tracker emits one segment. It carries the application and caption of
/// the first event, runs from the first arrival to the second, and its
/// duration is the whole seconds between the two. This holds whatever the
/// tracker held before the first event.
pub proof fn law_long_gap_emits_previous(
    before: Option<OpenSegmentView>,
    first: Arrival,
    second: Arrival,
)
    requires
        second.at - first.at >= NANOS_PER_SECOND,
    ensures
        emission(successor(first.event, first.at), second.at) == Some(span(first, second)),
        emissions(before, seq![first, second])[1] == Some(span(first, second)),
        duration_between(first.at, second.at) == (second.at - first.at) / (NANOS_PER_SECOND as int),
        duration_between(first.at, second.at) >= 1,
{
    law_emission_looks_one_back(before, seq![first, second], 1);
}

/// Two events in a row that arrive less than a second apart: on the second
/// the tracker emits nothing, and the segment it then holds open is that of
/// the second event, starting at the second arrival.
pub proof fn law_short_gap_emits_nothing(
    before: Option<OpenSegmentView>,
    first: Arrival,
    second: Arrival,
)
    requires
        second.at - first.at < NANOS_PER_SECOND,
    ensures
        emission(successor(first.event, first.at), second.at) is None,
        successor(second.event, second.at) == Some(opened_by(second.event, second.at)),
        emissions(before, seq![first, second])[1] is None,
        open_after(before, seq![first, second]) == Some(opened_by(second.event, second.at)),
{
    law_emission_looks_one_back(before, seq![first, second], 1);
}

/// The first event that a fresh tracker receives emits nothing.
pub proof fn law_first_event_emits_nothing(arrivals: Seq<Arrival>)
    requires
        arrivals.len() > 0,
    ensures
        emission(None, arrivals[0].at) is None,
        emissions(None, arrivals)[0] is None,
{
    law_emission_looks_one_back(None, arrivals, 0);
}

/// What the tracker emits on an arrival is decided by that arrival's time
/// and by the arrival just before it, and by nothing earlier: it is what
/// closing the previous arrival's segment yields.
pub proof fn law_emission_looks_one_back(
    start: Option<OpenSegmentView>,
    arrivals: Seq<Arrival>,
    k: int,
)
    requires
        0 <= k < arrivals.len(),
    ensures
        emissions(start, arrivals).len() == arrivals.len(),
        k == 0 ==> emissions(start, arrivals)[k] == emission(start, arrivals[k].at),
        k > 0 ==> emissions(start, arrivals)[k] == closed_at(
            opened_by(arrivals[k - 1].event, arrivals[k - 1].at),
            arrivals[k].at,
        ),
    decreases arrivals.len(),
{
    let earlier = arrivals.drop_last();
    if earlier.len() == 0 {
        assert(emissions(start, earlier) =~= Seq::empty());
    } else {
        law_emission_looks_one_back(start, earlier, if k < earlier.len() { k } else { 0 });
    }
}

/// A segment that was dropped as shorter than a second leaves no trace.
///
/// Let arrival `i` be followed by the next one within a second. Then nothing
/// is emitted when that next one arrives, and every later emission is the
/// same as if arrival `i` had been any `other` event at any other time: no
/// later segment holds anything of it.
pub proof fn law_dropped_segment_leaves_no_trace(
    start: Option<OpenSegmentView>,
    arrivals: Seq<Arrival>,
    i: int,
    other: Arrival,
    k: int,
)
    requires
        0 <= i,
        i + 1 < arrivals.len(),
        arrivals[i + 1].at - arrivals[i].at < NANOS_PER_SECOND,
        i + 1 < k < arrivals.len(),
    ensures
        emissions(start, arrivals)[i + 1] is None,
        emissions(start, arrivals.update(i, other))[k] == emissions(start, arrivals)[k],
{
    law_emission_looks_one_back(start, arrivals, i + 1);
    law_emission_looks_one_back(start, arrivals, k);
    law_emission_looks_one_back(start, arrivals.update(i, other), k);
}

/// Every emitted segment ends at the arrival that closed it, a second or
/// more after it began.
pub proof fn law_emitted_segment_lasts_a_second(
    start: Option<OpenSegmentView>,
    arrivals: Seq<Arrival>,
    k: int,
)
    requires
        0 <= k < arrivals.len(),
    ensures
        emissions(start, arrivals)[k] matches Some(segment) ==> segment.end_time == arrivals[k].at,
        emissions(start, arrivals)[k] matches Some(segment) ==> segment.end_time
            - segment.start_time >= NANOS_PER_SECOND,
        emissions(start, arrivals)[k] matches Some(segment) ==> duration_between(
            segment.start_time,
            segment.end_time,
        ) >= 1,
{
    law_emission_looks_one_back(start, arrivals, k);
}

/// Segments emitted on two arrivals in a row adjoin: the second begins at
/// the instant at which the first ends, with no gap and no overlap.
pub proof fn law_segments_in_a_row_adjoin(
    start: Option<OpenSegmentView>,
    arrivals: Seq<Arrival>,
    k: int,
)
    requires
        0 <= k,
        k + 1 < arrivals.len(),
        emissions(start, arrivals)[k] is Some,
        emissions(start, arrivals)[k + 1] is Some,
    ensures
        emissions(start, arrivals)[k + 1]->0.start_time == emissions(start, arrivals)[k]->0.end_time,
{
    law_emission_looks_one_back(start, arrivals, k);
    law_emission_looks_one_back(start, arrivals, k + 1);
}

/// While the clock never runs backwards, emitted segments do not overlap
/// and come out in order: each ends no later than any later one begins.
pub proof fn law_segments_do_not_overlap(
    start: Option<OpenSegmentView>,
    arrivals: Seq<Arrival>,
    j: int,
    k: int,
)
    requires
        forall|a: int, b: int|
            0 <= a <= b < arrivals.len() ==> (#[trigger] arrivals[a]).at <= (#[trigger] arrivals[b]).at,
        0 <= j < k < arrivals.len(),
        emissions(start, arrivals)[j] is Some,
        emissions(start, arrivals)[k] is Some,
    ensures
        emissions(start, arrivals)[j]->0.end_time <= emissions(start, arrivals)[k]->0.start_time,
{
    law_emission_looks_one_back(start, arrivals, j);
    law_emission_looks_one_back(start, arrivals, k);
    assert(arrivals[j].at <= arrivals[k - 1].at);
}

/// The state of the loop after it took `inputs` one after the other,
/// beginning in `state`.
pub open spec fn loop_after(state: LoopState, inputs: Seq<InputView>) -> LoopState
    decreases inputs.len(),
{
    if inputs.len() == 0 {
        state
    } else {
        next_state(loop_after(state, inputs.drop_last()), inputs.last())
    }
}

/// The actions with which the loop answered `inputs`, beginning in `state`.
pub open spec fn actions(state: LoopState, inputs: Seq<InputView>) -> Seq<ActionView>
    decreases inputs.len(),
{
    if inputs.len() == 0 {
        Seq::empty()
    } else {
        let earlier = inputs.drop_last();
        actions(state, earlier).push(action_for(loop_after(state, earlier), inputs.last()))
    }
}

/// A failed store call is not fatal and is not tried again: the loop
/// answers it as it answers a success, by waiting for the next event, and
/// its state is untouched, so that whatever comes next is handled as if the
/// call had succeeded.
pub proof fn law_store_failure_is_passed_over(state: LoopState, next: InputView)
    ensures
        next_state(state, InputView::StoreFailed) == state,
        action_for(state, InputView::StoreFailed) == action_for(state, InputView::Stored),
        !state.stopped ==> action_for(state, InputView::StoreFailed) == ActionView::Receive,
        next_state(next_state(state, InputView::StoreFailed), next) == next_state(state, next),
        action_for(next_state(state, InputView::StoreFailed), next) == action_for(state, next),
{
}

/// Once the channel is closed the loop is over: the answer is to leave, the
/// open segment stays as it was and is never handed out, and whatever is
/// reported afterwards is answered by leaving too.
pub proof fn law_closed_channel_ends_loop(state: LoopState, later: Seq<InputView>, k: int)
    requires
        0 <= k < later.len(),
    ensures
        action_for(state, InputView::ChannelClosed) == ActionView::Exit,
        next_state(state, InputView::ChannelClosed).stopped,
        next_state(state, InputView::ChannelClosed).open == state.open,
        loop_after(next_state(state, InputView::ChannelClosed), later) == next_state(
            state,
            InputView::ChannelClosed,
        ),
        actions(next_state(state, InputView::ChannelClosed), later).len() == later.len(),
        actions(next_state(state, InputView::ChannelClosed), later)[k] == ActionView::Exit,
    decreases later.len(),
{
    let closed = next_state(state, InputView::ChannelClosed);
    let earlier = later.drop_last();
    if earlier.len() == 0 {
        assert(actions(closed, earlier) =~= Seq::empty());
    } else {
        law_closed_channel_ends_loop(state, earlier, if k < earlier.len() { k } else { 0 });
    }
}

/// The reports that the loop gets when `arrivals` come in one after the
/// other and nothing else happens.
pub open spec fn event_inputs(arrivals: Seq<Arrival>) -> Seq<InputView> {
    Seq::new(
        arrivals.len(),
        |k: int| InputView::Event { event: arrivals[k].event, now: arrivals[k].at },
    )
}

/// The action that hands `emitted` on: a store call for a segment, and the
/// wait for the next event where there is none.
pub open spec fn handing_on(emitted: Option<SegmentView>) -> ActionView {
    match emitted {
        Some(segment) => ActionView::Record(segment),
        None => ActionView::Receive,
    }
}

/// While the loop runs, it offers to the store what the tracker emits, no
/// more and no less: its answer to each event is a store call for the
/// segment that the tracker emitted on it, or the wait for the next event
/// where the tracker emitted none. Its tracker ends up as one that took the
/// same events by itself.
pub proof fn law_loop_offers_what_the_tracker_emits(
    state: LoopState,
    arrivals: Seq<Arrival>,
    k: int,
)
    requires
        !state.stopped,
        0 <= k < arrivals.len(),
    ensures
        loop_after(state, event_inputs(arrivals)) == (LoopState {
            open: open_after(state.open, arrivals),
            stopped: false,
        }),
        actions(state, event_inputs(arrivals)).len() == arrivals.len(),
        actions(state, event_inputs(arrivals))[k] == handing_on(emissions(state.open, arrivals)[k]),
    decreases arrivals.len(),
{
    let earlier = arrivals.drop_last();
    assert(event_inputs(arrivals).drop_last() =~= event_inputs(earlier));
    if earlier.len() == 0 {
        assert(actions(state, event_inputs(earlier)) =~= Seq::empty());
        assert(emissions(state.open, earlier) =~= Seq::empty());
    } else {
        law_loop_offers_what_the_tracker_emits(
            state,
            earlier,
            if k < earlier.len() {
                k
            } else {
                0
            },
        );
        law_emission_looks_one_back(state.open, earlier, 0);
    }
}

} // verus!
