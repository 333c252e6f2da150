//! Binding vertex buffers: which attribute pointers a vertex array needs
//! for a list of buffers, and whether the buffers fit their description.

use vstd::prelude::*;
use crate::error::{first_error, lemma_first_error_skips, Error};
use crate::lang::{BaseType, ScalarType, Type};
use crate::program_def::{VertexAttributeDef, VertexInputRate};

verus! {

/// The component types that a vertex attribute can have.
#[derive(Debug, Clone, Copy, PartialEq, Eq, Structural, Hash)]
pub enum NumericType {
    F32,
    I32,
    U32,
}

/// The description of one vertex buffer.
#[derive(Debug, Clone, PartialEq, Eq)]
pub struct VertexDataEntryInfo {
    pub input_rate: VertexInputRate,
    pub stride: usize,
    pub attributes: Vec<VertexAttributeDef>,
}

/// A buffer as far as binding it is concerned: the context that owns it
/// and its length in bytes.
#[derive(Debug, Clone, Copy, PartialEq, Eq, Structural, Hash)]
pub struct BufferBinding {
    pub context: u64,
    pub len: usize,
}

/// How an attribute occupies attribute locations.
#[derive(Debug, Clone, PartialEq, Eq)]
pub struct VertexDataAttributeInfo {
    pub name: String,
    pub ty: NumericType,
    pub num_components: usize,
    pub num_locations: usize,
}

/// One attribute pointer of a vertex array.
#[derive(Debug, Clone, Copy, PartialEq, Eq, Structural, Hash)]
pub struct AttributePointer {
    /// The position of the buffer in the list of buffers.
    pub binding: usize,
    /// The attribute location.
    pub index: usize,
    pub num_components: usize,
    pub ty: NumericType,
    /// The code of the component type in the graphics interface.
    pub data_type: u32,
    pub stride: usize,
    pub offset: usize,
}

/// The code of a component type in the graphics interface.
pub open spec fn gl_code(ty: NumericType) -> u32 {
    match ty {
        NumericType::F32 => 0x1406,
        NumericType::I32 => 0x1404,
        NumericType::U32 => 0x1405,
    }
}

/// The constant `glow::FLOAT`.
#[verifier::external_body]
fn gl_float() -> (r: u32)
    ensures
        r == 0x1406,
{
    glow::FLOAT
}

/// The constant `glow::INT`.
#[verifier::external_body]
fn gl_int() -> (r: u32)
    ensures
        r == 0x1404,
{
    glow::INT
}

/// The constant `glow::UNSIGNED_INT`.
#[verifier::external_body]
fn gl_unsigned_int() -> (r: u32)
    ensures
        r == 0x1405,
{
    glow::UNSIGNED_INT
}

/// The size of a component in bytes.
pub fn numeric_type_size(ty: NumericType) -> (r: usize)
    ensures
        r == 4,
{
    match ty {
        NumericType::F32 => 4,
        NumericType::I32 => 4,
        NumericType::U32 => 4,
    }
}

/// The code of a component type in the graphics interface.
pub fn numeric_type_to_gl(ty: NumericType) -> (r: u32)
    ensures
        r == gl_code(ty),
{
    match ty {
        NumericType::F32 => gl_float(),
        NumericType::I32 => gl_int(),
        NumericType::U32 => gl_unsigned_int(),
    }
}

/// The numeric type of a component type, if it has one.
pub open spec fn numeric_of(s: ScalarType) -> Option<NumericType> {
    match s {
        ScalarType::F32 => Some(NumericType::F32),
        ScalarType::I32 => Some(NumericType::I32),
        ScalarType::U32 => Some(NumericType::U32),
        ScalarType::Bool => None,
    }
}

/// The numeric type of a component type. Booleans cannot be vertex
/// attributes.
pub fn get_numeric_type(s: ScalarType) -> (r: Result<NumericType, Error>)
    ensures
        match r {
            Ok(n) => numeric_of(s) == Some(n),
            Err(e) => e == Error::BoolLeaf && numeric_of(s) is None,
        },
{
    match s {
        ScalarType::F32 => Ok(NumericType::F32),
        ScalarType::I32 => Ok(NumericType::I32),
        ScalarType::U32 => Ok(NumericType::U32),
        ScalarType::Bool => Err(Error::BoolLeaf),
    }
}

/// Why a type cannot be a vertex attribute, if it cannot: only scalars
/// and vectors of numbers can.
pub open spec fn leaf_refusal(ty: Type) -> Option<Error> {
    match ty {
        Type::Array(_, _) => Some(Error::ArrayLeaf),
        Type::Base(BaseType::Struct(_)) => Some(Error::StructLeaf),
        Type::Base(BaseType::Sampler2d(_)) => Some(Error::SamplerLeaf),
        Type::Base(b) => if b.component() == Some(ScalarType::Bool) {
            Some(Error::BoolLeaf)
        } else {
            None
        },
    }
}

/// The number of components of a scalar or vector.
pub open spec fn components_of(ty: Type) -> nat {
    match ty {
        Type::Base(BaseType::Scalar(_)) => 1,
        Type::Base(BaseType::Vec2(_)) => 2,
        Type::Base(BaseType::Vec3(_)) => 3,
        Type::Base(BaseType::Vec4(_)) => 4,
        _ => 0,
    }
}

/// The numeric type of the components of a scalar or vector of numbers.
pub open spec fn numeric_components(ty: Type) -> NumericType {
    match ty {
        Type::Base(b) => match b.component() {
            Some(s) => match numeric_of(s) {
                Some(n) => n,
                None => NumericType::F32,
            },
            None => NumericType::F32,
        },
        _ => NumericType::F32,
    }
}

impl VertexDataAttributeInfo {
    /// Whether the info is that of an attribute named `name` of type
    /// `ty`.
    pub open spec fn describes(self, name: Seq<char>, ty: Type) -> bool {
        &&& self.name@ == name
        &&& self.ty == numeric_components(ty)
        &&& self.num_components == components_of(ty)
        &&& self.num_locations == 1
    }

    /// How an attribute of type `ty` occupies attribute locations: a
    /// scalar or vector of numbers takes one location with as many
    /// components as it has. Any other type is refused.
    pub fn new(name: &str, ty: &Type) -> (r: Result<VertexDataAttributeInfo, Error>)
        ensures
            match r {
                Ok(info) => leaf_refusal(*ty) is None && info.describes(name@, *ty),
                Err(e) => leaf_refusal(*ty) == Some(e),
            },
    {
        match ty {
            Type::Base(b) => match b {
                BaseType::Scalar(s) => Ok(
                    VertexDataAttributeInfo {
                        name: String::from_str(name),
                        ty: get_numeric_type(*s)?,
                        num_components: 1,
                        num_locations: 1,
                    },
                ),
                BaseType::Vec2(s) => Ok(
                    VertexDataAttributeInfo {
                        name: String::from_str(name),
                        ty: get_numeric_type(*s)?,
                        num_components: 2,
                        num_locations: 1,
                    },
                ),
                BaseType::Vec3(s) => Ok(
                    VertexDataAttributeInfo {
                        name: String::from_str(name),
                        ty: get_numeric_type(*s)?,
                        num_components: 3,
                        num_locations: 1,
                    },
                ),
                BaseType::Vec4(s) => Ok(
                    VertexDataAttributeInfo {
                        name: String::from_str(name),
                        ty: get_numeric_type(*s)?,
                        num_components: 4,
                        num_locations: 1,
                    },
                ),
                BaseType::Struct(_) => Err(Error::StructLeaf),
                BaseType::Sampler2d(_) => Err(Error::SamplerLeaf),
            },
            Type::Array(_, _) => Err(Error::ArrayLeaf),
        }
    }

    /// The number of bytes that the attribute takes at one location.
    pub fn location_size(&self) -> (r: usize)
        requires
            self.num_components * 4 <= usize::MAX,
        ensures
            r == self.num_components * 4,
    {
        self.num_components * numeric_type_size(self.ty)
    }
}

/// The number of bytes that an attribute of type `ty` takes.
pub open spec fn span_of(ty: Type) -> nat {
    components_of(ty) * 4
}

/// Why an attribute does not fit a buffer of the given stride, if it does
/// not: its type must be a scalar or vector of numbers, and it must end
/// within the stride.
pub open spec fn attribute_check(a: VertexAttributeDef, stride: usize) -> Option<Error> {
    match leaf_refusal(a.ty) {
        Some(e) => Some(e),
        None => if a.offset + span_of(a.ty) > stride {
            Some(Error::AttributeBeyondStride)
        } else {
            None
        },
    }
}

/// The checks of the attributes of a buffer, one for one.
pub open spec fn attribute_checks(info: VertexDataEntryInfo) -> Seq<Option<Error>> {
    Seq::new(info.attributes@.len(), |i: int| attribute_check(info.attributes@[i], info.stride))
}

/// Why a buffer does not fit its description, if it does not: it must
/// belong to the context, its stride must not be zero, its length must be
/// a multiple of the stride, and every attribute must fit.
pub open spec fn entry_check(context: u64, binding: BufferBinding, info: VertexDataEntryInfo) -> Option<
    Error,
> {
    if info.stride == 0 {
        Some(Error::ZeroStride)
    } else if binding.len % info.stride != 0 {
        Some(Error::BufferLength)
    } else if binding.context != context {
        Some(Error::ForeignBuffer)
    } else {
        first_error(attribute_checks(info), 0)
    }
}

/// The checks of the buffers, one for one.
pub open spec fn entry_checks(context: u64, entries: Seq<(BufferBinding, VertexDataEntryInfo)>) -> Seq<
    Option<Error>,
> {
    Seq::new(entries.len(), |i: int| entry_check(context, entries[i].0, entries[i].1))
}

/// The number of attributes of the first `k` buffers: the location of
/// the first attribute of the next one.
pub open spec fn attributes_before(entries: Seq<(BufferBinding, VertexDataEntryInfo)>, k: nat) -> nat
    decreases k,
{
    if k == 0 {
        0
    } else {
        attributes_before(entries, (k - 1) as nat) + entries[k - 1].1.attributes@.len()
    }
}

/// The pointer of attribute `j` of buffer `i`.
pub open spec fn pointer_of(entries: Seq<(BufferBinding, VertexDataEntryInfo)>, i: int, j: int) -> AttributePointer {
    let info = entries[i].1;
    let a = info.attributes@[j];
    AttributePointer {
        binding: i as usize,
        index: (attributes_before(entries, i as nat) + j) as usize,
        num_components: components_of(a.ty) as usize,
        ty: numeric_components(a.ty),
        data_type: gl_code(numeric_components(a.ty)),
        stride: info.stride,
        offset: a.offset,
    }
}

/// The pointers of the first `j` attributes of buffer `i`, after those of
/// the buffers before it. Locations are given out in this order.
pub open spec fn pointers(entries: Seq<(BufferBinding, VertexDataEntryInfo)>, i: nat, j: nat) -> Seq<
    AttributePointer,
>
    decreases i, j,
{
    if j > 0 {
        pointers(entries, i, (j - 1) as nat).push(pointer_of(entries, i as int, j - 1))
    } else if i > 0 {
        pointers(entries, (i - 1) as nat, entries[i - 1].1.attributes@.len())
    } else {
        Seq::empty()
    }
}

/// The pointers before attribute `j` of buffer `i` are as many as the
/// attributes before it.
pub proof fn lemma_pointers_len(entries: Seq<(BufferBinding, VertexDataEntryInfo)>, i: nat, j: nat)
    ensures
        pointers(entries, i, j).len() == attributes_before(entries, i) + j,
    decreases i, j,
{
    if j > 0 {
        lemma_pointers_len(entries, i, (j - 1) as nat);
    } else if i > 0 {
        lemma_pointers_len(entries, (i - 1) as nat, entries[i - 1].1.attributes@.len());
    }
}

/// Plans a vertex array for the buffers of a context: checks every buffer
/// against its description and gives the attribute pointers to set, in
/// the order of the buffers and of their attributes, with locations
/// counted from zero.
pub fn plan_vertex_data(context: u64, entries: &Vec<(BufferBinding, VertexDataEntryInfo)>) -> (r:
    Result<Vec<AttributePointer>, Error>)
    ensures
        match r {
            Ok(plan) => first_error(entry_checks(context, entries@), 0) is None && plan@
                == pointers(entries@, entries@.len(), 0),
            Err(e) => first_error(entry_checks(context, entries@), 0) == Some(e),
        },
{
    let ghost checks = entry_checks(context, entries@);
    let mut plan: Vec<AttributePointer> = Vec::new();
    let mut i: usize = 0;
    while i < entries.len()
        invariant
            i <= entries.len(),
            checks == entry_checks(context, entries@),
            forall|k: int| 0 <= k < i ==> (#[trigger] checks[k]) is None,
            plan@ == pointers(entries@, i as nat, 0),
        decreases entries.len() - i,
    {
        let binding: BufferBinding = entries[i].0;
        let info = &entries[i].1;
        let ghost inner = attribute_checks(*info);
        proof {
            lemma_first_error_skips(checks, 0, i as int);
        }
        if info.stride == 0 {
            return Err(Error::ZeroStride);
        }
        if binding.len % info.stride != 0 {
            return Err(Error::BufferLength);
        }
        if binding.context != context {
            return Err(Error::ForeignBuffer);
        }
        let mut j: usize = 0;
        while j < info.attributes.len()
            invariant
                j <= info.attributes.len(),
                i < entries.len(),
                *info == entries@[i as int].1,
                inner == attribute_checks(*info),
                checks == entry_checks(context, entries@),
                checks[i as int] == first_error(inner, 0),
                first_error(checks, 0) == first_error(checks, i as int),
                forall|k: int| 0 <= k < j ==> (#[trigger] inner[k]) is None,
                plan@ == pointers(entries@, i as nat, j as nat),
            decreases info.attributes.len() - j,
        {
            let attribute = &info.attributes[j];
            proof {
                lemma_first_error_skips(inner, 0, j as int);
                lemma_pointers_len(entries@, i as nat, j as nat);
            }
            let described = match VertexDataAttributeInfo::new(attribute.name.as_str(), &attribute.ty) {
                Ok(described) => described,
                Err(e) => {
                    return Err(e);
                },
            };
            let size: usize = described.location_size();
            if attribute.offset > info.stride || size > info.stride - attribute.offset {
                return Err(Error::AttributeBeyondStride);
            }
            let pointer = AttributePointer {
                binding: i,
                index: plan.len(),
                num_components: described.num_components,
                ty: described.ty,
                data_type: numeric_type_to_gl(described.ty),
                stride: info.stride,
                offset: attribute.offset,
            };
            plan.push(pointer);
            j += 1;
        }
        proof {
            lemma_first_error_skips(inner, 0, info.attributes@.len() as int);
        }
        i += 1;
    }
    proof {
        lemma_first_error_skips(checks, 0, entries@.len() as int);
    }
    Ok(plan)
}

} // verus!
