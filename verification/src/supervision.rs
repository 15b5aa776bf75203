//! What holds of the capture supervisor over whole runs: how many streams its
//! driver has open, and where a series of device requests leaves it.

use crate::audio::{
    construction, next_state, AudioDevice, CaptureAction, CaptureEvent, CaptureState, HostReply,
    StreamError,
};
use vstd::prelude::*;

verus! {

/// The state reached from `state` after the driver has reported `events`, one
/// after the other.
pub open spec fn run(state: CaptureState, events: Seq<CaptureEvent>) -> CaptureState
    decreases events.len(),
{
    if events.len() == 0 {
        state
    } else {
        next_state(run(state, events.drop_last()), events.last())
    }
}

/// How a report changes the number of streams that the driver has open: a
/// stream is opened where the pending action was to build one and it started,
/// and dropped where the pending action was to drop it.
pub open spec fn streams_after(open: int, before: CaptureState, event: CaptureEvent) -> int {
    match (before.pending(), event) {
        (CaptureAction::BuildStream(_), CaptureEvent::Built(true)) => open + 1,
        (CaptureAction::DropStream, CaptureEvent::Dropped) => open - 1,
        _ => open,
    }
}

/// The number of streams that the driver has open after it has performed the
/// supervisor's actions from `state` on and reported `events`, where it had
/// none open at the start.
pub open spec fn open_streams(state: CaptureState, events: Seq<CaptureEvent>) -> int
    decreases events.len(),
{
    if events.len() == 0 {
        0
    } else {
        streams_after(
            open_streams(state, events.drop_last()),
            run(state, events.drop_last()),
            events.last(),
        )
    }
}

/// At most one stream is open at any instant: whatever the driver reports,
/// from a start at which nothing is open, the number of open streams is one
/// where the supervisor holds a stream and zero elsewhere.
pub proof fn lemma_single_stream(state: CaptureState, events: Seq<CaptureEvent>)
    requires
        !state.holds_stream(),
    ensures
        0 <= open_streams(state, events) <= 1,
        open_streams(state, events) == 1 <==> run(state, events).holds_stream(),
    decreases events.len(),
{
    if events.len() > 0 {
        lemma_single_stream(state, events.drop_last());
    }
}

/// A stream is only ever built while none is held.
pub proof fn lemma_build_only_when_free(state: CaptureState)
    ensures
        state.pending() is BuildStream ==> !state.holds_stream(),
        state.pending() is DropStream ==> state.holds_stream(),
{
}

/// The closing of the request channel is the only way to the end, and the end
/// is for good: `Terminated` is entered on `RequestsClosed` while nothing is
/// open, or once the stream was dropped after it, and no event leads out.
pub proof fn lemma_termination(state: CaptureState, event: CaptureEvent)
    ensures
        state is Terminated ==> next_state(state, event) is Terminated,
        !(state is Terminated) && next_state(state, event) is Terminated ==> (state is Idle
            && event is RequestsClosed) || (state == CaptureState::Releasing(None)
            && event is Dropped),
        next_state(state, event) == CaptureState::Releasing(None) && state
            != CaptureState::Releasing(None) ==> state is Streaming && event is RequestsClosed,
{
}

/// How far a state is from one that waits on the request channel or has
/// ended.
pub open spec fn distance(state: CaptureState) -> nat {
    match state {
        CaptureState::Releasing(_) => 4,
        CaptureState::Resolving(_) => 3,
        CaptureState::Configuring(_) => 2,
        CaptureState::Building(_) => 1,
        _ => 0,
    }
}

/// The driver's report on an action that needs no request: the host's answer
/// to a question, or that the stream was dropped.
pub open spec fn report(action: CaptureAction, host: HostReply) -> CaptureEvent {
    match action {
        CaptureAction::Enumerate => CaptureEvent::Enumerated {
            inputs: host.inputs,
            outputs: host.outputs,
        },
        CaptureAction::QueryConfig(_) => CaptureEvent::Configured(host.format),
        CaptureAction::BuildStream(_) => CaptureEvent::Built(host.started),
        _ => CaptureEvent::Dropped,
    }
}

/// The state in which the supervisor next waits on the request channel (or
/// has ended), where the driver performs each pending action on a host that
/// answers with `host`.
pub open spec fn settle(state: CaptureState, host: HostReply) -> CaptureState
    decreases distance(state),
{
    if distance(state) == 0 {
        state
    } else {
        settle(next_state(state, report(state.pending(), host)), host)
    }
}

/// Where a construction ends: in `Streaming` on the device where it
/// succeeds, in `Idle` with the reason where it fails.
pub open spec fn constructed(device: AudioDevice, host: HostReply) -> CaptureState {
    match construction(device, host) {
        Ok(_) => CaptureState::Streaming(device),
        Err(e) => CaptureState::Idle(e),
    }
}

/// A construction, carried out step by step, ends as the decision over the
/// host's answers says.
pub proof fn lemma_construction_settles(device: AudioDevice, host: HostReply)
    ensures
        settle(CaptureState::Resolving(device), host) == constructed(device, host),
        settle(CaptureState::Releasing(Some(device)), host) == constructed(device, host),
{
    reveal_with_fuel(settle, 5);
}

/// A selector is bound to the enumeration taken for the construction: where
/// that enumeration has no such position, the request ends in `Idle` with
/// `InvalidIndex`, whatever was listed when the request was made and whatever
/// else the host would answer.
pub proof fn lemma_index_bound_at_construction(
    state: CaptureState,
    device: AudioDevice,
    host: HostReply,
)
    requires
        state is Streaming || state is Idle,
        !device.in_range(host.inputs as nat, host.outputs as nat),
    ensures
        settle(next_state(state, CaptureEvent::Requested(device)), host) == CaptureState::Idle(
            StreamError::InvalidIndex,
        ),
{
    lemma_construction_settles(device, host);
}

/// The state after a series of device requests has been served from `state`,
/// each on the host as it answers at that time.
pub open spec fn serve(state: CaptureState, requests: Seq<(AudioDevice, HostReply)>) -> CaptureState
    decreases requests.len(),
{
    if requests.len() == 0 {
        state
    } else {
        settle(
            next_state(serve(state, requests.drop_last()), CaptureEvent::Requested(requests.last().0)),
            requests.last().1,
        )
    }
}

/// The last request decides: after any series of requests the supervisor
/// streams on the last requested device where its construction succeeded,
/// and is idle with that construction's failure where it did not. No earlier
/// stream persists.
pub proof fn lemma_last_request_decides(
    state: CaptureState,
    requests: Seq<(AudioDevice, HostReply)>,
)
    requires
        state is Streaming || state is Idle,
        requests.len() > 0,
    ensures
        serve(state, requests) == constructed(requests.last().0, requests.last().1),
    decreases requests.len(),
{
    let earlier = requests.drop_last();
    let device = requests.last().0;
    if earlier.len() > 0 {
        lemma_last_request_decides(state, earlier);
    }
    let before = serve(state, earlier);
    assert(before is Streaming || before is Idle);
    let asked = next_state(before, CaptureEvent::Requested(device));
    assert(asked == CaptureState::Resolving(device) || asked == CaptureState::Releasing(
        Some(device),
    ));
    lemma_construction_settles(device, requests.last().1);
}

/// Running over two series of reports in a row is running over the first and
/// then over the second.
pub proof fn lemma_run_in_parts(
    state: CaptureState,
    first: Seq<CaptureEvent>,
    second: Seq<CaptureEvent>,
)
    ensures
        run(state, first + second) == run(run(state, first), second),
    decreases second.len(),
{
    if second.len() == 0 {
        assert(first + second =~= first);
    } else {
        assert((first + second).drop_last() =~= first + second.drop_last());
        lemma_run_in_parts(state, first, second.drop_last());
    }
}

/// Running over one report is one step.
pub proof fn lemma_run_one(state: CaptureState, event: CaptureEvent)
    ensures
        run(state, seq![event]) == next_state(state, event),
{
    let single = seq![event];
    assert(single.drop_last() =~= Seq::<CaptureEvent>::empty());
    assert(run(state, single.drop_last()) == state);
    assert(single.last() == event);
}

/// The reports that the driver makes from `state` until the supervisor next
/// waits on the request channel or has ended, on a host that answers with
/// `host`.
pub open spec fn settle_events(state: CaptureState, host: HostReply) -> Seq<CaptureEvent>
    decreases distance(state),
{
    if distance(state) == 0 {
        seq![]
    } else {
        seq![report(state.pending(), host)] + settle_events(
            next_state(state, report(state.pending(), host)),
            host,
        )
    }
}

/// The reports made while settling lead to the settled state.
pub proof fn lemma_settle_is_a_run(state: CaptureState, host: HostReply)
    ensures
        run(state, settle_events(state, host)) == settle(state, host),
    decreases distance(state),
{
    if distance(state) > 0 {
        let event = report(state.pending(), host);
        let next = next_state(state, event);
        lemma_settle_is_a_run(next, host);
        lemma_run_in_parts(state, seq![event], settle_events(next, host));
        lemma_run_one(state, event);
    }
}

/// Everything the driver reports while a series of requests is served from
/// `state`: each request as it arrives, and then what settles it.
pub open spec fn serve_events(
    state: CaptureState,
    requests: Seq<(AudioDevice, HostReply)>,
) -> Seq<CaptureEvent>
    decreases requests.len(),
{
    if requests.len() == 0 {
        seq![]
    } else {
        let asked = CaptureEvent::Requested(requests.last().0);
        serve_events(state, requests.drop_last()) + seq![asked] + settle_events(
            next_state(serve(state, requests.drop_last()), asked),
            requests.last().1,
        )
    }
}

/// The reports made while requests are served lead to the state that serving
/// them ends in.
pub proof fn lemma_serve_is_a_run(state: CaptureState, requests: Seq<(AudioDevice, HostReply)>)
    ensures
        run(state, serve_events(state, requests)) == serve(state, requests),
    decreases requests.len(),
{
    if requests.len() > 0 {
        let earlier = requests.drop_last();
        let asked = CaptureEvent::Requested(requests.last().0);
        let before = serve(state, earlier);
        let tail = settle_events(next_state(before, asked), requests.last().1);
        lemma_serve_is_a_run(state, earlier);
        lemma_run_in_parts(state, serve_events(state, earlier), seq![asked]);
        lemma_run_in_parts(state, serve_events(state, earlier) + seq![asked], tail);
        lemma_run_one(before, asked);
        lemma_settle_is_a_run(next_state(before, asked), requests.last().1);
    }
}

/// Everything the driver reports over a whole session: the construction on
/// the first device, and then the requests that follow.
pub open spec fn session_events(
    first: (AudioDevice, HostReply),
    requests: Seq<(AudioDevice, HostReply)>,
) -> Seq<CaptureEvent> {
    settle_events(CaptureState::Resolving(first.0), first.1) + serve_events(
        constructed(first.0, first.1),
        requests,
    )
}

/// After any session exactly one stream is open, on the device asked for
/// last, where the last construction succeeded; none is open where it
/// failed, and so where all of them failed. The device asked for last is the
/// first device where no request followed.
pub proof fn lemma_session_ends_on_last_request(
    first: (AudioDevice, HostReply),
    requests: Seq<(AudioDevice, HostReply)>,
)
    ensures
        ({
            let start = CaptureState::Resolving(first.0);
            let events = session_events(first, requests);
            let last = if requests.len() == 0 {
                first
            } else {
                requests.last()
            };
            &&& run(start, events) == constructed(last.0, last.1)
            &&& open_streams(start, events) == (if construction(last.0, last.1) is Ok {
                1int
            } else {
                0int
            })
        }),
{
    let start = CaptureState::Resolving(first.0);
    let opened = constructed(first.0, first.1);
    lemma_construction_settles(first.0, first.1);
    lemma_settle_is_a_run(start, first.1);
    lemma_serve_is_a_run(opened, requests);
    lemma_run_in_parts(start, settle_events(start, first.1), serve_events(opened, requests));
    if requests.len() > 0 {
        lemma_last_request_decides(opened, requests);
    }
    lemma_single_stream(start, session_events(first, requests));
}

/// Where every construction fails, no stream is open after the requests.
pub proof fn lemma_all_failed_none_open(
    state: CaptureState,
    requests: Seq<(AudioDevice, HostReply)>,
)
    requires
        state is Idle,
        forall|i: int|
            0 <= i < requests.len() ==> construction(
                #[trigger] requests[i].0,
                requests[i].1,
            ) is Err,
    ensures
        !serve(state, requests).holds_stream(),
{
    if requests.len() > 0 {
        lemma_last_request_decides(state, requests);
    }
}

} // verus!
