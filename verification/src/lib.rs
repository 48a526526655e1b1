//! A fixed-capacity FIFO queue over a fixed number of storage slots.
//!
//! The queue never allocates per element and never grows: pushing into a
//! full queue hands the value back to the caller, and popping from an empty
//! queue returns `None`. Capacity is a compile-time parameter of the type.

pub mod laws;
pub mod queue;
