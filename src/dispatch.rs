use vstd::prelude::*;

use crate::message::{exec_index, functions_tag, kind_of, receiver_name, InboundKind, InboundMessage, OutboundMessage};
use crate::registry::{discloses, function_command, summaries, MacronConfig, MacronError};

verus! {

/// What the agent does next.
pub enum Action {
    /// Send a message to the server.
    Send(OutboundMessage),
    /// Launch this local command and wait until it exits.
    Run(String),
    /// Log a failure of one request and go on.
    Report(MacronError),
    /// Stop the process with this exit status.
    Exit(i32),
    /// Nothing to do: wait for the next event.
    Wait,
}

/// `out` answers a `functions` request `msg`: it echoes the client id, carries
/// the configured password and the whole registry reduced to name and
/// description.
pub open spec fn is_functions_reply(out: OutboundMessage, msg: InboundMessage, config: MacronConfig) -> bool {
    &&& out.message_type@ == functions_tag()
    &&& out.client_id == msg.client_id
    &&& out.password == Some(config.server.password)
    &&& out.receiver_name@ == receiver_name()
    &&& out.functions is Some
    &&& discloses(out.functions->Some_0@, config.functions@)
}

/// `a` is what the running loop does with the inbound message `msg`.
pub open spec fn dispatched(msg: InboundMessage, config: MacronConfig, a: Action) -> bool {
    match kind_of(msg.message_type@) {
        InboundKind::Functions => a is Send && is_functions_reply(a->Send_0, msg, config),
        InboundKind::Exec => if exec_index(msg) < config.functions@.len() {
            a is Run && a->Run_0@ == config.functions@[exec_index(msg) as int].command@
        } else {
            a == Action::Report(MacronError::FunctionNotFound)
        },
        _ => a is Wait,
    }
}

fn copy_client_id(c: &Option<String>) -> (r: Option<String>)
    ensures
        r == *c,
{
    match c {
        Some(s) => Some(s.clone()),
        None => None,
    }
}

/// The answer to a `functions` request: the registry disclosed without its
/// commands.
pub fn functions_reply(msg: &InboundMessage, config: &MacronConfig) -> (r: OutboundMessage)
    ensures
        is_functions_reply(r, *msg, *config),
{
    OutboundMessage {
        message_type: "functions".to_owned(),
        client_id: copy_client_id(&msg.client_id),
        password: Some(config.server.password.clone()),
        receiver_name: "rust".to_owned(),
        functions: Some(summaries(&config.functions)),
    }
}

/// Routes one inbound message of an authenticated session. An `exec` request
/// resolves its id as a position in the registry; one that resolves to nothing
/// launches nothing and reports `FunctionNotFound`. Types other than
/// `functions` and `exec` are ignored.
pub fn dispatch(msg: &InboundMessage, config: &MacronConfig) -> (r: Action)
    ensures
        dispatched(*msg, *config, r),
{
    match msg.kind() {
        InboundKind::Functions => Action::Send(functions_reply(msg, config)),
        InboundKind::Exec => match function_command(&config.functions, msg.exec_index()) {
            Ok(command) => Action::Run(command),
            Err(e) => Action::Report(e),
        },
        _ => Action::Wait,
    }
}

} // verus!
