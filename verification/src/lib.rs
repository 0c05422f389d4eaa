//! Dispatch core for a catalogue of named tools.
//!
//! A tool is either an external command with a typed argument list or one of
//! a few built-in handlers. The library decides what an invocation means
//! (which tokens go on the command line, which request is rejected and why,
//! what the caller gets back); running processes and touching files is left
//! to the caller, who reports back what happened.

pub mod text;
pub mod json;
pub mod error;
pub mod cli_tool;
pub mod process;
pub mod handlers;
pub mod tool_registry;
pub mod dynamic_tools;
pub mod audit;
pub mod server;
