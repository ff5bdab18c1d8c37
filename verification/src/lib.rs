//! Checked capacity growth for small-vector style containers.
//!
//! A container that keeps a few elements inline and moves to a heap buffer
//! when it outgrows them must never be handed a capacity below its live
//! element count, and must never give up a buffer it goes on owning. This
//! crate decides every growth request before any buffer is touched, and
//! drives a `smallvec::SmallVec` only through requests it has admitted.

pub mod model;
pub mod plan;
pub mod store;
pub mod container;
pub mod nesting;
pub mod parser;
pub mod laws;
