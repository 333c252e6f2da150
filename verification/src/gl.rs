//! What the graphics context needs decided for it: how vertex buffers
//! are bound to attribute locations, and how draw calls are traced.

pub mod tracing;
pub mod vertex_data;
