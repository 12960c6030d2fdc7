//! Instance records, pipeline descriptions and the per-frame plan.

pub mod pipeline;
pub mod renderer;
pub mod state;
pub mod vertex;
