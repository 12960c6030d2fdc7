//! One batch per shape kind.

pub mod rect;
