//! Replicated disaggregated memory: the bookkeeping of memory nodes, the
//! wall clock in nanoseconds, and the decisions of a sleep that ends in a
//! busy poll.

pub mod clock;
pub mod memory;
pub mod poll;
