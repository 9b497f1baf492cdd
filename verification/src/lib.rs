//! Verified core of the ACP agent command-line client.

pub mod acp;
pub mod args;
pub mod cli;
pub mod context;
pub mod daemon;
pub mod daemon_turn;
pub mod help;
pub mod invocation;
pub mod keyed;
pub mod output;
pub mod plan;
pub mod registry;
pub mod repl;
pub mod sessions;
pub mod text;
