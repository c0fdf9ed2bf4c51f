//! Skarn: the decision logic of an OS-sandboxed MCP gateway with an embedded
//! Code Mode engine — resource limits, the tool-call budget, the answers the
//! isolate gets, the sandbox policy and its fail-closed rule, and the choices
//! behind the `skarn` subcommands.

pub mod error;
pub mod text;
pub mod time;
pub mod limits;
pub mod budget;
pub mod json;
pub mod envelope;
pub mod bridge;
pub mod engine;
pub mod sandbox;
pub mod command;
pub mod proto;
pub mod cli;
