//! A capability provider that lets sandboxed actors run commands on the host.
//!
//! The library holds the messages and their form on the wire, the routing
//! of the host's calls, and the rules that turn the outcome of a command
//! into a reply. Starting the command is left to the caller: a call is
//! routed, the caller launches what the route asks for, and the outcome is
//! turned into the reply.

pub mod binding;
pub mod codec;
pub mod depth;
pub mod error;
pub mod invoke;
pub mod laws;
pub mod provider;
pub mod shell;
pub mod text;
pub mod wire;
