//! Core of a LADSPA plugin adapter: the descriptor builder, the process-wide
//! descriptor registry, the per-instance port-connection table, and the
//! buffer-substitution bookkeeping behind additive (`run_adding`) execution.
//!
//! Everything here works on plain values: host pointers appear as opaque
//! addresses and 32-bit samples as their IEEE-754 bit patterns, so the logic
//! that decides what the foreign shell must do is fully verified, while the
//! shell itself stays a thin layer of raw-pointer glue.

pub mod connection;
pub mod descriptor;
pub mod instance;
pub mod meta;
pub mod registry;
