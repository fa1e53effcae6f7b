//! Generic numeric abstractions.

pub mod number;
