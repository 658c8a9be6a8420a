//! Command-scope enforcement and process-lifecycle decisions for a sandboxed
//! shell: which program may run, how its output is decoded, and which child
//! processes are live.

pub mod commands;
pub mod encoding;
pub mod error;
pub mod event;
pub mod registry;
pub mod scope;
