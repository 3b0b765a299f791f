//! What holds of every session, whatever the driver reports and in whatever order.

use crate::errors::ErrorClass;
use crate::network::{Action, Event, SessionModel, SessionState, Timeouts};
use vstd::prelude::*;

verus! {

/// The session after a whole sequence of events, fed in order.
pub open spec fn run(session: SessionModel, events: Seq<Event>) -> SessionModel
    decreases events.len(),
{
    if events.len() == 0 {
        session
    } else {
        run(session, events.drop_last()).transition(events.last()).0
    }
}

/// Whether an event reports a missed deadline.
pub open spec fn is_missed_deadline(event: Event) -> bool {
    event is ConnectTimedOut || event is KeyAgreementTimedOut || event is ReceiveTimedOut
}

/// A well-formed session stays well-formed under every event.
pub proof fn lemma_transition_preserves_wf(session: SessionModel, event: Event)
    requires
        session.wf(),
    ensures
        session.transition(event).0.wf(),
{
}

/// Closed and Failed are final: no event changes them, and the driver is told
/// to stop.
pub proof fn lemma_terminal_states_are_final(session: SessionModel, event: Event)
    requires
        session.state.is_terminal(),
    ensures
        session.transition(event) == (session, Action::Stop),
{
}

/// States follow each other in one fixed order: an event leaves the state as
/// it is, moves it to the next one in line, or fails the session. The deadlines
/// never change.
pub proof fn lemma_states_follow_in_order(session: SessionModel, event: Event)
    ensures
        ({
            let next = session.transition(event).0;
            &&& next.state == session.state || next.state is Failed || next.state.rank()
                == session.state.rank() + 1
            &&& next.timeouts == session.timeouts
        }),
{
}

/// No frame moves before the keys exist: whenever the driver is asked to send
/// or receive a frame, the stream is open and the key agreement has completed.
pub proof fn lemma_frames_need_secrets(session: SessionModel, event: Event)
    requires
        session.wf(),
    ensures
        session.transition(event).1.moves_frame() ==> session.transition(event).0.secrets_derived
            && session.transition(event).0.state.transport_open(),
{
}

/// The keys are derived once: only a completed key agreement creates them, and
/// a second report of one changes nothing.
pub proof fn lemma_secrets_derived_once(session: SessionModel, event: Event)
    requires
        session.wf(),
    ensures
        !session.secrets_derived && session.transition(event).0.secrets_derived ==> session.state
            is KeyAgreementInProgress && event is SecretsDerived,
        session.secrets_derived && event is SecretsDerived ==> session.transition(event).0
            == session,
{
}

/// The stream is closed exactly when the session leaves the states in which
/// it is open, and the keys are dropped with it.
pub proof fn lemma_transport_closed_at_end(session: SessionModel, event: Event)
    requires
        session.wf(),
    ensures
        ({
            let (next, action) = session.transition(event);
            &&& action is Close <==> session.state.transport_open() && !next.state.transport_open()
            &&& action is Close ==> next.state.is_terminal() && !next.secrets_derived
        }),
{
}

/// A missed deadline that the session was waiting on fails it, and the
/// reason recorded is a timeout, never a transport failure.
pub proof fn lemma_missed_deadline_is_timeout(session: SessionModel, event: Event)
    requires
        session.wf(),
        is_missed_deadline(event),
        session.transition(event).0 != session,
    ensures
        session.transition(event).0.state is Failed,
        session.transition(event).0.failure matches Some(reason) && reason.class()
            == ErrorClass::Timeout,
{
}

/// A failure records its reason at the moment it happens, and nothing else
/// ever writes one.
pub proof fn lemma_failure_is_recorded(session: SessionModel, event: Event)
    requires
        session.wf(),
    ensures
        ({
            let next = session.transition(event).0;
            &&& next.state is Failed <==> next.failure is Some
            &&& session.state is Failed ==> next.failure == session.failure
        }),
{
}

/// Until the peer has answered, the session can still fail: from every state
/// before Established, two events at most lead to Failed.
pub proof fn lemma_failure_reachable(session: SessionModel)
    requires
        session.wf(),
        session.state.rank() < SessionState::Established.rank(),
    ensures
        exists|first: Event, second: Event| #[trigger]
            session.transition(first).0.transition(second).0.state is Failed,
{
    let stop = Event::StreamEnded;
    match session.state {
        SessionState::Disconnected => {
            assert(session.transition(Event::Advance).0.transition(
                Event::ConnectTimedOut,
            ).0.state is Failed);
        },
        SessionState::Connecting => {
            assert(session.transition(Event::ConnectTimedOut).0.transition(stop).0.state is Failed);
        },
        SessionState::KeyAgreementInProgress => {
            if session.secrets_derived {
                assert(session.transition(Event::SendFailed).0.transition(stop).0.state is Failed);
            } else {
                assert(session.transition(Event::KeyAgreementFailed).0.transition(stop).0.state
                    is Failed);
            }
        },
        SessionState::GreetingSent => {
            assert(session.transition(Event::Advance).0.transition(stop).0.state is Failed);
        },
        _ => {
            assert(session.transition(stop).0.transition(stop).0.state is Failed);
        },
    }
}

/// Once the peer has answered, the session cannot fail any more: taking
/// leave is best effort, and whatever is reported the session does not end
/// in Failed.
pub proof fn lemma_teardown_never_fails(session: SessionModel, event: Event)
    requires
        session.wf(),
        session.state.rank() >= SessionState::Established.rank(),
        !(session.state is Failed),
    ensures
        !(session.transition(event).0.state is Failed),
        session.state is Disconnecting && (event is Sent || event is SendFailed)
            ==> session.transition(event).0.state is Closed,
{
}

/// Over a whole run, a well-formed session stays well-formed and never moves
/// back in the order of states.
pub proof fn lemma_run_moves_forward(session: SessionModel, events: Seq<Event>)
    requires
        session.wf(),
    ensures
        run(session, events).wf(),
        run(session, events).state.rank() >= session.state.rank(),
        run(session, events).timeouts == session.timeouts,
    decreases events.len(),
{
    if events.len() > 0 {
        lemma_run_moves_forward(session, events.drop_last());
        let before = run(session, events.drop_last());
        lemma_transition_preserves_wf(before, events.last());
        lemma_states_follow_in_order(before, events.last());
    }
}

/// How far a session has come: the number of steps behind it on the way from
/// the start to a clean close.
pub open spec fn progress(session: SessionModel) -> nat {
    if session.state.rank() < 2 || session.in_connection_phase() {
        session.state.rank()
    } else {
        session.state.rank() + 1
    }
}

/// Each event takes the session one step further at most.
pub proof fn lemma_one_step_per_event(session: SessionModel, events: Seq<Event>)
    requires
        session.wf(),
    ensures
        !(run(session, events).state is Failed) ==> progress(run(session, events)) <= progress(
            session,
        ) + events.len(),
    decreases events.len(),
{
    if events.len() > 0 {
        lemma_one_step_per_event(session, events.drop_last());
        lemma_run_moves_forward(session, events.drop_last());
    }
}

/// There is no retry: an event that reports an outcome of the awaited action
/// either fails the session or takes it exactly one step further, so the
/// same action is never asked for twice. Every other event changes nothing.
pub proof fn lemma_an_answer_moves_on(session: SessionModel, event: Event)
    requires
        session.wf(),
    ensures
        ({
            let (next, action) = session.transition(event);
            if session.awaited().is_answered_by(event) {
                &&& !session.state.is_terminal()
                &&& next.state is Failed || progress(next) == progress(session) + 1
                &&& next.awaited() != session.awaited()
            } else {
                next == session && action == session.awaited()
            }
        }),
{
}

/// A session that closed in order went through every state on the way: a run
/// from the start that ends in Closed has at least eight events, one for each
/// step.
pub proof fn lemma_closed_needs_every_step(timeouts: Timeouts, events: Seq<Event>)
    requires
        run(SessionModel::initial(timeouts), events).state is Closed,
    ensures
        events.len() >= 8,
{
    lemma_one_step_per_event(SessionModel::initial(timeouts), events);
}

} // verus!
