//! Startup layer of a multi-chain EVM monitoring tool: the chain registry,
//! the bootstrap sequence as a state machine, and small shared helpers.

pub mod bootstrap;
pub mod chain;
pub mod decimal;
pub mod utils;
