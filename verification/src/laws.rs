//! What holds of every session, whatever the device answers.
//!
//! A run is a session's state after a sequence of events. The laws below
//! speak of all runs: of the mappings that a run establishes and of those it
//! hands out for unmapping, of the descriptors it opens and closes, and of
//! what a failure leaves possible.

use vstd::prelude::*;
use crate::action::Action;
use crate::error::SessionError;
use crate::error::WaitError;
use crate::event::Event;
use crate::event::MAP_FAILED;
use crate::event::Reply;
use crate::format::Format;
use crate::pool::MappedBuffer;
use crate::state::Config;
use crate::state::Phase;
use crate::state::SessionState;
use crate::state::lemma_next_wf;

verus! {

/// The state that the events lead to, one after the other, from `s`.
pub open spec fn run(s: SessionState, events: Seq<Event>) -> SessionState
    decreases events.len(),
{
    if events.len() == 0 {
        s
    } else {
        run(s, events.drop_last()).next(events.last())
    }
}

/// Whether `event`, arriving in state `s`, reports a new mapping.
pub open spec fn establishes(s: SessionState, event: Event) -> bool {
    &&& s.phase is MappingBuffer
    &&& event matches Event::Mapped { address, os_errno }
    &&& address != MAP_FAILED
}

/// The mappings that a run establishes, in the order of their making.
pub open spec fn established(s: SessionState, events: Seq<Event>) -> Seq<MappedBuffer>
    decreases events.len(),
{
    if events.len() == 0 {
        Seq::empty()
    } else {
        let before = run(s, events.drop_last());
        let earlier = established(s, events.drop_last());
        if establishes(before, events.last()) {
            earlier.push(before.mapping_at(events.last()->Mapped_address))
        } else {
            earlier
        }
    }
}

/// The mappings for which a run has had an unmap call performed, in the
/// order of the calls.
pub open spec fn released(s: SessionState, events: Seq<Event>) -> Seq<MappedBuffer>
    decreases events.len(),
{
    if events.len() == 0 {
        Seq::empty()
    } else {
        let before = run(s, events.drop_last());
        let earlier = released(s, events.drop_last());
        if before.phase is Unmapping {
            earlier.push(before.pool.last())
        } else {
            earlier
        }
    }
}

/// Whether `event`, arriving in state `s`, reports an open descriptor.
pub open spec fn opens_device(s: SessionState, event: Event) -> bool {
    &&& s.phase is Opening
    &&& event matches Event::Opened { ret, os_errno }
    &&& ret >= 0
}

/// The number of descriptors that a run opens.
pub open spec fn opens(s: SessionState, events: Seq<Event>) -> nat
    decreases events.len(),
{
    if events.len() == 0 {
        0
    } else {
        let before = run(s, events.drop_last());
        let earlier = opens(s, events.drop_last());
        if opens_device(before, events.last()) {
            earlier + 1
        } else {
            earlier
        }
    }
}

/// The number of close calls that a run has had performed.
pub open spec fn closes(s: SessionState, events: Seq<Event>) -> nat
    decreases events.len(),
{
    if events.len() == 0 {
        0
    } else {
        let before = run(s, events.drop_last());
        let earlier = closes(s, events.drop_last());
        if before.phase is Closing {
            earlier + 1
        } else {
            earlier
        }
    }
}

/// Whether an action gives something back or ends the session.
pub open spec fn is_release_action(action: Action) -> bool {
    action is UnmapBuffer || action is CloseDevice || action is Finish
}

/// A run leads from a state that a session can be in to another such state.
pub proof fn lemma_run_wf(s: SessionState, events: Seq<Event>)
    requires
        s.wf(),
    ensures
        run(s, events).wf(),
    decreases events.len(),
{
    if events.len() > 0 {
        lemma_run_wf(s, events.drop_last());
        lemma_next_wf(run(s, events.drop_last()), events.last());
    }
}

/// The mappings live at the start and those established since are the
/// mappings still live followed by the released ones, last released first.
/// Nothing is established once anything was released, and no more than
/// the device granted.
pub proof fn lemma_mappings_accounted(s: SessionState, events: Seq<Event>)
    requires
        s.wf(),
    ensures
        s.pool + established(s, events) == run(s, events).pool + released(s, events).reverse(),
        released(s, events).len() > 0 ==> run(s, events).phase.is_release(),
        s.phase.is_release() ==> run(s, events).phase.is_release(),
        s.pool.len() + established(s, events).len() <= run(s, events).granted,
    decreases events.len(),
{
    if events.len() == 0 {
        assert(s.pool + established(s, events) =~= run(s, events).pool + released(
            s,
            events,
        ).reverse());
    } else {
        let before = run(s, events.drop_last());
        let event = events.last();
        let after = run(s, events);
        let est = established(s, events.drop_last());
        let rel = released(s, events.drop_last());
        lemma_mappings_accounted(s, events.drop_last());
        lemma_run_wf(s, events.drop_last());
        lemma_next_wf(before, event);
        assert((s.pool + est).len() == (before.pool + rel.reverse()).len());
        if establishes(before, event) {
            let fresh = before.mapping_at(event->Mapped_address);
            assert(rel.len() == 0);
            assert(after.pool == before.pool.push(fresh));
            assert(s.pool + est.push(fresh) =~= (s.pool + est).push(fresh));
            assert(before.pool.push(fresh) + rel.reverse() =~= (before.pool + rel.reverse()).push(
                fresh,
            ));
        } else if before.phase is Unmapping {
            let last = before.pool.last();
            assert(after.pool == before.pool.drop_last());
            assert(before.pool.drop_last() + rel.push(last).reverse() =~= before.pool
                + rel.reverse());
        } else {
            assert(after.pool == before.pool);
        }
    }
}

/// Of every run of a session: the descriptor is opened at most once; while
/// it is open it has not been closed; once the session has finished it was
/// closed as often as it was opened.
pub proof fn lemma_descriptor_accounted(config: Config, events: Seq<Event>)
    ensures
        ({
            let s = SessionState::initial(config);
            match run(s, events).phase {
                Phase::Opening => opens(s, events) == 0 && closes(s, events) == 0,
                Phase::Finished => closes(s, events) == opens(s, events) <= 1,
                _ => opens(s, events) == 1 && closes(s, events) == 0,
            }
        }),
    decreases events.len(),
{
    if events.len() > 0 {
        lemma_descriptor_accounted(config, events.drop_last());
    }
}

/// No session maps more buffers than its device granted, and a session
/// works with all of them or with none: whenever it is about to stream,
/// streaming, or handing out a frame, its live mappings are exactly the
/// granted buffers, one for each index, and they are all the mappings it
/// ever made.
pub proof fn law_pool_all_or_nothing(config: Config, events: Seq<Event>)
    ensures
        ({
            let s = SessionState::initial(config);
            let t = run(s, events);
            &&& established(s, events).len() <= t.granted
            &&& t.pool.len() <= t.granted
            &&& t.pending() is MapBuffer ==> t.pool.len() < t.granted
            &&& t.phase.is_capture() ==> {
                &&& t.pool.len() == t.granted
                &&& t.granted >= 1
                &&& t.pool == established(s, events)
                &&& forall|i: int| 0 <= i < t.pool.len() ==> (#[trigger] t.pool[i]).index == i
            }
        }),
{
    let s = SessionState::initial(config);
    let t = run(s, events);
    lemma_run_wf(s, events);
    lemma_mappings_accounted(s, events);
    if t.phase.is_capture() {
        assert(released(s, events).len() == 0);
        assert(s.pool + established(s, events) =~= established(s, events));
        assert(t.pool + released(s, events).reverse() =~= t.pool);
    }
}

/// A session that fails while it maps its buffers leaks none of them: by
/// the time its descriptor is to be closed, every mapping it made has been
/// unmapped, and none is live.
pub proof fn law_no_mapping_outlives_failure(config: Config, events: Seq<Event>)
    ensures
        ({
            let s = SessionState::initial(config);
            let t = run(s, events);
            t.error is Some && (t.phase is Closing || t.phase is Finished) ==> {
                &&& t.pool.len() == 0
                &&& released(s, events).len() == established(s, events).len()
            }
        }),
{
    let s = SessionState::initial(config);
    law_release_order(config, events);
    lemma_run_wf(s, events);
    assert(established(s, events).reverse().len() == established(s, events).len());
}

/// Every mapping is unmapped exactly once, and before the descriptor is
/// closed: when the close is pending or done, the mappings handed out for
/// unmapping are those the session made, each once, the last made first. The
/// descriptor is closed exactly once if it was opened, and never otherwise;
/// a close is never pending while a mapping is live.
pub proof fn law_release_order(config: Config, events: Seq<Event>)
    ensures
        ({
            let s = SessionState::initial(config);
            let t = run(s, events);
            &&& t.pending() is CloseDevice ==> t.pool.len() == 0
            &&& t.phase is Closing || t.phase is Finished ==> released(s, events)
                == established(s, events).reverse()
            &&& closes(s, events) <= opens(s, events) <= 1
            &&& t.phase is Finished ==> closes(s, events) == opens(s, events)
            &&& closes(s, events) > 0 ==> t.phase is Finished
        }),
{
    let s = SessionState::initial(config);
    let t = run(s, events);
    lemma_run_wf(s, events);
    lemma_mappings_accounted(s, events);
    lemma_descriptor_accounted(config, events);
    if t.phase is Closing || t.phase is Finished {
        let est = established(s, events);
        let rel = released(s, events);
        assert(s.pool + est =~= est);
        assert(t.pool + rel.reverse() =~= rel.reverse());
        assert(rel.reverse().reverse() =~= rel);
    }
}

/// A failure is final. From a failed session on, whatever events arrive,
/// the failure stays the one first met, and the session asks for nothing
/// but to unmap, to close, and to finish.
pub proof fn law_failure_is_final(s: SessionState, events: Seq<Event>)
    requires
        s.wf(),
        s.error is Some,
    ensures
        run(s, events).error == s.error,
        run(s, events).phase.is_release(),
        is_release_action(run(s, events).pending()),
    decreases events.len(),
{
    if events.len() > 0 {
        law_failure_is_final(s, events.drop_last());
        lemma_run_wf(s, events.drop_last());
    }
}

/// A wait that ends with nothing to read fails the session with a timeout,
/// and no buffer is dequeued then or later.
pub proof fn law_timeout_dequeues_nothing(s: SessionState, os_errno: i32, events: Seq<Event>)
    requires
        s.wf(),
        s.phase is Waiting,
    ensures
        ({
            let t = run(s.next(Event::WaitReturned { ret: 0, os_errno }), events);
            &&& t.error == Some(SessionError::Wait(WaitError::Timeout))
            &&& !(t.pending() is Ioctl)
        }),
{
    let failed = s.next(Event::WaitReturned { ret: 0, os_errno });
    lemma_next_wf(s, Event::WaitReturned { ret: 0, os_errno });
    law_failure_is_final(failed, events);
}

/// The format of a session is the one its device reported when asked: the
/// session takes it as read, and nothing that happens later changes it.
pub proof fn law_negotiated_format_is_authoritative(
    s: SessionState,
    ret: i32,
    os_errno: i32,
    format: Format,
    events: Seq<Event>,
)
    requires
        s.wf(),
        s.phase is ReadingFormat,
        ret >= 0,
    ensures
        run(
            s.next(Event::IoctlReturned { ret, os_errno, reply: Reply::Format(format) }),
            events,
        ).negotiated == Some(format),
{
    let event = Event::IoctlReturned { ret, os_errno, reply: Reply::Format(format) };
    lemma_next_wf(s, event);
    lemma_format_kept(s.next(event), events);
}

/// Once a format is agreed on, it stays.
pub proof fn lemma_format_kept(s: SessionState, events: Seq<Event>)
    requires
        s.wf(),
        s.negotiated is Some,
    ensures
        run(s, events).negotiated == s.negotiated,
    decreases events.len(),
{
    if events.len() > 0 {
        lemma_format_kept(s, events.drop_last());
        lemma_run_wf(s, events.drop_last());
    }
}

/// Whether an action starts the stream.
pub open spec fn starts_stream(action: Action) -> bool {
    &&& action matches Action::Ioctl { fd, code, request }
    &&& request is StreamOn
}

/// Whether an event reports a successful request for buffers that granted
/// none.
pub open spec fn grants_nothing(event: Event) -> bool {
    &&& event matches Event::IoctlReturned { ret, os_errno, reply }
    &&& ret >= 0
    &&& reply matches Reply::Buffers(buffers)
    &&& buffers.count == 0
}

/// A session starts to stream only over a pool that is complete and not
/// empty. A device that grants no buffer fails the session on the spot.
pub proof fn law_streaming_needs_buffers(s: SessionState, event: Event)
    requires
        s.wf(),
    ensures
        starts_stream(s.pending()) ==> s.pool.len() == s.granted && s.granted >= 1,
        s.phase is RequestingBuffers && grants_nothing(event) ==> s.next(event).error == Some(
            SessionError::NoBuffers,
        ) && is_release_action(s.next(event).pending()),
{
}

/// A bound on the number of events that a session still takes before it
/// has finished. Before the device has granted its buffers the bound allows
/// for the largest grant there is.
pub open spec fn remaining(s: SessionState) -> int {
    match s.phase {
        Phase::Opening => 4 * u32::MAX + 12,
        Phase::QueryingCapabilities => 4 * u32::MAX + 11,
        Phase::SettingFormat => 4 * u32::MAX + 10,
        Phase::ReadingFormat => 4 * u32::MAX + 9,
        Phase::RequestingBuffers => 4 * u32::MAX + 8,
        Phase::QueryingBuffer => 3 * (s.granted - s.pool.len()) + s.granted + 7,
        Phase::MappingBuffer => 3 * (s.granted - s.pool.len()) + s.granted + 6,
        Phase::QueueingBuffer => 3 * (s.granted - s.pool.len()) + s.granted + 8,
        Phase::StartingStream => s.granted + 6,
        Phase::Waiting => s.granted + 5,
        Phase::Dequeuing => s.granted + 4,
        Phase::Delivering => s.granted + 3,
        Phase::StoppingStream => s.granted + 2,
        Phase::Unmapping => s.pool.len() as int + 1,
        Phase::Closing => 1,
        Phase::Finished => 0,
    }
}

/// Every event brings an unfinished session nearer to its end.
pub proof fn law_progress(s: SessionState, event: Event)
    requires
        s.wf(),
        !(s.phase is Finished),
    ensures
        0 <= remaining(s.next(event)) < remaining(s),
{
    lemma_next_wf(s, event);
}

/// Every session comes to its end, on every path: after as many events as
/// `remaining` allows, whatever they report, the session has finished. By
/// then it has released every mapping it made and closed the descriptor it
/// opened.
pub proof fn law_session_finishes(s: SessionState, events: Seq<Event>)
    requires
        s.wf(),
    ensures
        0 <= remaining(run(s, events)),
        remaining(run(s, events)) <= remaining(s) - events.len() || run(s, events).phase
            is Finished,
        events.len() >= remaining(s) ==> run(s, events).phase is Finished,
    decreases events.len(),
{
    if events.len() > 0 {
        let before = run(s, events.drop_last());
        law_session_finishes(s, events.drop_last());
        lemma_run_wf(s, events.drop_last());
        if !(before.phase is Finished) {
            law_progress(before, events.last());
        }
    }
}

} // verus!
