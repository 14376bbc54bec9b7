//! Orchestration core of a kernel tracer: probes, the per-mechanism builders
//! that load one shared program and attach it to many targets, the manager
//! that sequences them, and the compatibility rules collectors apply before
//! they register anything.
//!
//! The library never talks to the kernel itself. Every operation that needs
//! kernel work is split in two: a function that says which kernel steps are
//! due and in which order, and a function that takes what the kernel answered
//! and moves the state accordingly.

pub mod probe;
pub mod hook;
pub mod kernel;
pub mod builder;
pub mod manager;
pub mod compat;
pub mod skb_drop;
