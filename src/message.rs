use vstd::prelude::*;

use crate::registry::{FunctionSummary, ServerConfig};

verus! {

/// The login endpoint's answer: a session token for the persistent connection.
pub struct AuthMessage {
    pub message_type: String,
    pub session_token: String,
}

/// What the login endpoint is sent.
pub struct CredentialMessage {
    pub email: String,
    pub password: String,
}

/// A message the agent sends on the persistent connection.
pub struct OutboundMessage {
    pub message_type: String,
    pub client_id: Option<String>,
    pub password: Option<String>,
    pub receiver_name: String,
    pub functions: Option<Vec<FunctionSummary>>,
}

/// A message the agent receives on the persistent connection.
pub struct InboundMessage {
    pub message_type: String,
    pub client_id: Option<String>,
    pub error: Option<String>,
    pub id: Option<usize>,
}

/// The kinds of inbound message the agent tells apart by their type tag.
#[derive(PartialEq, Eq, Structural, Clone, Copy, Debug)]
pub enum InboundKind {
    AuthSuccess,
    Functions,
    Exec,
    Other,
}

pub open spec fn auth_tag() -> Seq<char> {
    "auth"@
}

pub open spec fn auth_success_tag() -> Seq<char> {
    "auth_success"@
}

pub open spec fn functions_tag() -> Seq<char> {
    "functions"@
}

pub open spec fn exec_tag() -> Seq<char> {
    "exec"@
}

/// The fixed name by which this agent identifies its implementation.
pub open spec fn receiver_name() -> Seq<char> {
    "rust"@
}

pub open spec fn kind_of(tag: Seq<char>) -> InboundKind {
    if tag == auth_success_tag() {
        InboundKind::AuthSuccess
    } else if tag == functions_tag() {
        InboundKind::Functions
    } else if tag == exec_tag() {
        InboundKind::Exec
    } else {
        InboundKind::Other
    }
}

/// The registry position an `exec` message asks for; an absent id stands for
/// a position that no registry has.
pub open spec fn exec_index(msg: InboundMessage) -> usize {
    match msg.id {
        Some(i) => i,
        None => usize::MAX,
    }
}

impl InboundMessage {
    /// Classifies the message by its type tag.
    pub fn kind(&self) -> (r: InboundKind)
        ensures
            r == kind_of(self.message_type@),
    {
        if self.message_type == "auth_success".to_owned() {
            InboundKind::AuthSuccess
        } else if self.message_type == "functions".to_owned() {
            InboundKind::Functions
        } else if self.message_type == "exec".to_owned() {
            InboundKind::Exec
        } else {
            InboundKind::Other
        }
    }

    /// The registry position asked for, `usize::MAX` where no id was given.
    pub fn exec_index(&self) -> (r: usize)
        ensures
            r == exec_index(*self),
    {
        match self.id {
            Some(i) => i,
            None => usize::MAX,
        }
    }
}

/// The first message on the persistent connection: an `auth` message that
/// names the implementation and carries no password.
pub fn auth_message() -> (r: OutboundMessage)
    ensures
        r.message_type@ == auth_tag(),
        r.client_id is None,
        r.password is None,
        r.receiver_name@ == receiver_name(),
        r.functions is None,
{
    OutboundMessage {
        message_type: "auth".to_owned(),
        client_id: None,
        password: None,
        receiver_name: "rust".to_owned(),
        functions: None,
    }
}

/// The body of the login request: the configured email and password.
pub fn credentials(server: &ServerConfig) -> (r: CredentialMessage)
    ensures
        r.email@ == server.email@,
        r.password@ == server.password@,
{
    CredentialMessage { email: server.email.clone(), password: server.password.clone() }
}

} // verus!
