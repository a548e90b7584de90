//! A runtime scheduler for a fixed set of named periodic workloads
//! ("loop kinds") that can be migrated at runtime between the thread
//! driving an event pump (the main thread) and a small fixed pool of
//! worker slots, with per-kind and per-thread frequencies that can be
//! reconfigured live.
//!
//! Frequencies are carried as the bit patterns of IEEE-754 doubles
//! (`f64::to_bits`): the scheduler only stores and forwards them, and
//! the pacing primitive that interprets them lives outside this crate.

pub mod loops;
pub mod manager;
pub mod mode;
pub mod msg;
pub mod runner;
