//! Staging of instance records and the batches built on it.

pub mod common;
pub mod group;
pub mod shapes;
pub mod submiter;
