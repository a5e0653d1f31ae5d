//! Memory bookkeeping.

pub mod arena;
