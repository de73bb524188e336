//! A remote-command agent: it authenticates to a server, keeps one session open
//! and runs locally registered commands on request.
//!
//! This crate holds the agent's decisions: the command registry and its lookup,
//! the wire message shapes, the inbound-message dispatcher and the session state
//! machine. Network, configuration files and process spawning are done by the
//! program that drives it.
use vstd::prelude::*;

pub mod dispatch;
pub mod endpoint;
pub mod message;
pub mod registry;
pub mod session;

verus! {

} // verus!
