//! An embedded shading language: a typed expression graph, a registry of
//! struct types, a buffer layout resolver and a lowering stage that turns
//! a pair of stage entry values into shader source text together with the
//! binding metadata a graphics context needs to link and feed the program.

pub mod block;
pub mod compile;
pub mod dag;
pub mod error;
pub mod gl;
pub mod lang;
pub mod layout;
pub mod lower;
pub mod program_def;
pub mod registry;
pub mod scope;
pub mod shader;
pub mod show;
pub mod text;
pub mod value;
