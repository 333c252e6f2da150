//! The definition of a program as a graphics context consumes it: the
//! resources and vertex buffers it needs and the source of its two
//! stages.

use vstd::prelude::*;
use crate::lang::{ScalarType, Type};

verus! {

/// A uniform block of a program.
#[derive(Debug, Clone, PartialEq, Eq)]
pub struct UniformBlockDef {
    /// The name of the block.
    pub block_name: String,
    /// The name of the single field within the block.
    pub arg_name: String,
    /// The type of that field.
    pub ty: Type,
    /// The location to which the block is bound in the program.
    pub location: usize,
}

/// A sampler of a program.
#[derive(Debug, Clone, PartialEq, Eq)]
pub struct UniformSamplerDef {
    pub name: String,
    /// The component type of the sampler.
    pub ty: ScalarType,
    /// The texture unit to which the sampler is bound in the program.
    pub texture_unit: usize,
}

/// One attribute of a vertex buffer: a scalar or vector at a byte offset
/// within each vertex.
#[derive(Debug, Clone, PartialEq, Eq)]
pub struct VertexAttributeDef {
    pub name: String,
    pub ty: Type,
    pub offset: usize,
}

/// The rate at which a vertex buffer advances.
#[derive(Debug, Clone, Copy, PartialEq, Eq, Structural, Hash)]
pub enum VertexInputRate {
    Vertex,
    Instance,
}

/// One vertex buffer of a program.
#[derive(Debug, Clone, PartialEq, Eq)]
pub struct VertexDef {
    pub input_rate: VertexInputRate,
    /// The number of bytes from one vertex to the next.
    pub stride: usize,
    pub attributes: Vec<VertexAttributeDef>,
}

/// The definition of a program, free of the types it was described with.
#[derive(Debug, Clone, Default, PartialEq, Eq)]
pub struct ProgramDef {
    /// Uniform blocks that the program needs.
    pub uniform_block_defs: Vec<UniformBlockDef>,
    /// Samplers that the program needs.
    pub uniform_sampler_defs: Vec<UniformSamplerDef>,
    /// Vertex buffers that the program needs.
    pub vertex_defs: Vec<VertexDef>,
    /// Source of the vertex stage.
    pub vertex_shader_source: String,
    /// Source of the fragment stage.
    pub fragment_shader_source: String,
}

/// A named scalar or vector at a byte offset: what an attribute says.
pub struct Leaf {
    pub path: Seq<char>,
    pub ty: Type,
    pub offset: nat,
}

/// What an attribute says.
pub open spec fn leaf_of(d: VertexAttributeDef) -> Leaf {
    Leaf { path: d.name@, ty: d.ty, offset: d.offset as nat }
}

/// What a list of attributes says.
pub open spec fn leaves_of(defs: Seq<VertexAttributeDef>) -> Seq<Leaf> {
    defs.map_values(|d: VertexAttributeDef| leaf_of(d))
}

} // verus!
