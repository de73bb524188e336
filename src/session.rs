use vstd::prelude::*;

use crate::dispatch::{dispatch, dispatched, Action};
use crate::message::{auth_message, auth_tag, kind_of, receiver_name, InboundKind, InboundMessage, OutboundMessage};
use crate::registry::{MacronConfig, MacronError};

verus! {

/// Exit status when the server does not confirm authentication.
pub const AUTH_REJECTED_EXIT: i32 = 2;

/// Exit status on any other fatal failure.
pub const FATAL_EXIT: i32 = 1;

/// Where the one session of the process stands.
pub enum SessionState {
    Disconnected,
    Authenticating,
    Authenticated,
    Closed(MacronError),
}

/// What the driver of the session observed.
pub enum Event {
    /// The persistent connection was opened.
    Connected,
    /// A message was received and decoded.
    Received(InboundMessage),
    /// A received frame could not be decoded.
    Malformed,
    /// The connection failed or closed.
    TransportFailed,
    /// A command asked for could not be launched.
    LaunchFailed,
}

pub open spec fn exit_code(reason: MacronError) -> i32 {
    if reason == MacronError::AuthRejected {
        AUTH_REJECTED_EXIT
    } else {
        FATAL_EXIT
    }
}

pub open spec fn is_auth_message(m: OutboundMessage) -> bool {
    &&& m.message_type@ == auth_tag()
    &&& m.client_id is None
    &&& m.password is None
    &&& m.receiver_name@ == receiver_name()
    &&& m.functions is None
}

/// The session's transitions. Before authentication is confirmed any answer
/// but `auth_success`, and any transport failure, is a rejection; once it is
/// confirmed only a broken connection or an undecodable frame ends it.
pub open spec fn next_state(s: SessionState, e: Event) -> SessionState {
    match s {
        SessionState::Disconnected => match e {
            Event::Connected => SessionState::Authenticating,
            Event::TransportFailed => SessionState::Closed(MacronError::TransportFailure),
            _ => s,
        },
        SessionState::Authenticating => match e {
            Event::Received(m) => if kind_of(m.message_type@) == InboundKind::AuthSuccess {
                SessionState::Authenticated
            } else {
                SessionState::Closed(MacronError::AuthRejected)
            },
            Event::TransportFailed => SessionState::Closed(MacronError::AuthRejected),
            Event::Malformed => SessionState::Closed(MacronError::MalformedMessage),
            _ => s,
        },
        SessionState::Authenticated => match e {
            Event::TransportFailed => SessionState::Closed(MacronError::TransportFailure),
            Event::Malformed => SessionState::Closed(MacronError::MalformedMessage),
            _ => s,
        },
        SessionState::Closed(_) => s,
    }
}

/// `a` is what the agent does on event `e` in state `s`: it sends the `auth`
/// message once connected, exits with the reason's status when the session
/// closes, and routes messages only once authenticated.
pub open spec fn step_action(s: SessionState, e: Event, config: MacronConfig, a: Action) -> bool {
    match next_state(s, e) {
        SessionState::Closed(reason) if !(s is Closed) => a == Action::Exit(exit_code(reason)),
        _ => match s {
            SessionState::Disconnected => if e is Connected {
                a is Send && is_auth_message(a->Send_0)
            } else {
                a is Wait
            },
            SessionState::Authenticated => match e {
                Event::Received(m) => dispatched(m, config, a),
                Event::LaunchFailed => a == Action::Report(MacronError::LaunchFailure),
                _ => a is Wait,
            },
            _ => a is Wait,
        },
    }
}

/// The state after a run of events from a fresh session.
pub open spec fn state_after(events: Seq<Event>) -> SessionState
    decreases events.len(),
{
    if events.len() == 0 {
        SessionState::Disconnected
    } else {
        next_state(state_after(events.drop_last()), events.last())
    }
}

/// `e` is the server's confirmation of a pending authentication.
pub open spec fn confirms_auth(s: SessionState, e: Event) -> bool {
    &&& s is Authenticating
    &&& e is Received
    &&& kind_of(e->Received_0.message_type@) == InboundKind::AuthSuccess
}

/// The one session of the process.
pub struct Session {
    pub state: SessionState,
}

impl Session {
    pub fn new() -> (r: Session)
        ensures
            r.state is Disconnected,
    {
        Session { state: SessionState::Disconnected }
    }

    /// Takes one event, moves to the next state and says what to do.
    pub fn step(&mut self, event: &Event, config: &MacronConfig) -> (r: Action)
        ensures
            final(self).state == next_state(old(self).state, *event),
            step_action(old(self).state, *event, *config, r),
    {
        match (&self.state, event) {
            (SessionState::Disconnected, Event::Connected) => {
                self.state = SessionState::Authenticating;
                Action::Send(auth_message())
            },
            (SessionState::Disconnected, Event::TransportFailed) => {
                self.state = SessionState::Closed(MacronError::TransportFailure);
                Action::Exit(FATAL_EXIT)
            },
            (SessionState::Authenticating, Event::Received(m)) => {
                if m.kind() == InboundKind::AuthSuccess {
                    self.state = SessionState::Authenticated;
                    Action::Wait
                } else {
                    self.state = SessionState::Closed(MacronError::AuthRejected);
                    Action::Exit(AUTH_REJECTED_EXIT)
                }
            },
            (SessionState::Authenticating, Event::TransportFailed) => {
                self.state = SessionState::Closed(MacronError::AuthRejected);
                Action::Exit(AUTH_REJECTED_EXIT)
            },
            (SessionState::Authenticating, Event::Malformed) => {
                self.state = SessionState::Closed(MacronError::MalformedMessage);
                Action::Exit(FATAL_EXIT)
            },
            (SessionState::Authenticated, Event::Received(m)) => dispatch(m, config),
            (SessionState::Authenticated, Event::LaunchFailed) => {
                Action::Report(MacronError::LaunchFailure)
            },
            (SessionState::Authenticated, Event::TransportFailed) => {
                self.state = SessionState::Closed(MacronError::TransportFailure);
                Action::Exit(FATAL_EXIT)
            },
            (SessionState::Authenticated, Event::Malformed) => {
                self.state = SessionState::Closed(MacronError::MalformedMessage);
                Action::Exit(FATAL_EXIT)
            },
            _ => Action::Wait,
        }
    }
}

proof fn lemma_authenticated_was_confirmed(events: Seq<Event>)
    requires
        state_after(events) is Authenticated,
    ensures
        exists|j: int| 0 <= j < events.len() && confirms_auth(#[trigger] state_after(events.take(j)), events[j]),
    decreases events.len(),
{
    let prev = events.drop_last();
    let n = events.len() - 1;
    if state_after(prev) is Authenticated {
        lemma_authenticated_was_confirmed(prev);
        let j = choose|j: int| 0 <= j < prev.len() && confirms_auth(#[trigger] state_after(prev.take(j)), prev[j]);
        assert(events.take(j) =~= prev.take(j));
        assert(confirms_auth(state_after(events.take(j)), events[j]));
    } else {
        assert(events.take(n) =~= prev);
        assert(confirms_auth(state_after(events.take(n)), events[n]));
    }
}

/// No command is launched before the server has confirmed authentication: in
/// any run of events from a fresh session, an event on which the agent runs a
/// command comes after one that confirmed a pending authentication.
pub proof fn authentication_precedes_execution(events: Seq<Event>, config: MacronConfig, i: int, a: Action)
    requires
        0 <= i < events.len(),
        step_action(state_after(events.take(i)), events[i], config, a),
        a is Run,
    ensures
        exists|j: int| 0 <= j < i && confirms_auth(#[trigger] state_after(events.take(j)), events[j]),
{
    let prefix = events.take(i);
    assert(state_after(prefix) is Authenticated);
    lemma_authenticated_was_confirmed(prefix);
    let j = choose|j: int| 0 <= j < prefix.len() && confirms_auth(#[trigger] state_after(prefix.take(j)), prefix[j]);
    assert(events.take(j) =~= prefix.take(j));
    assert(confirms_auth(state_after(events.take(j)), events[j]));
}

/// A message of a type the agent does not recognise is a no-op in a running
/// session: the state stays as it was and nothing is sent, run or reported.
pub proof fn unrecognized_message_is_no_op(m: InboundMessage, config: MacronConfig, a: Action)
    requires
        kind_of(m.message_type@) == InboundKind::Other,
        step_action(SessionState::Authenticated, Event::Received(m), config, a),
    ensures
        next_state(SessionState::Authenticated, Event::Received(m)) == SessionState::Authenticated,
        a is Wait,
{
}

} // verus!
