//! The interface between a shader and its inputs.

pub mod fields;
