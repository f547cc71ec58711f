//! Volatile stores, for development, testing and experiments.

pub mod memory_log;
pub mod memory_state;
