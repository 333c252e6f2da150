//! The ways in which a program description is refused.

use vstd::prelude::*;

verus! {

/// Why a construction was refused. Every refusal leaves the registry and
/// the graph as they were.
#[derive(Debug, Clone, Copy, PartialEq, Eq, Structural, Hash)]
pub enum Error {
    /// A handle does not belong to the graph it was used with.
    UnknownNode,
    /// A function handle does not belong to the graph it was used with.
    UnknownFunction,
    /// A struct type is named that the registry does not hold; a struct
    /// that names itself is the plainest case.
    UnregisteredStruct,
    /// A sampler was declared as the field of a struct.
    SamplerField,
    /// The laid out size of a struct is beyond what a buffer may hold.
    TooLarge,
    /// The base of a field access is not a struct.
    NotAStruct,
    /// The struct has no field of the requested name.
    UnknownField,
    /// The type given for a field is not the type it was declared with.
    FieldTypeMismatch,
    /// The two operands of an operator differ in type.
    OperandMismatch,
    /// The operator is not defined on operands of this type.
    OperandType,
    /// The condition of a selection is not boolean.
    ConditionNotBool,
    /// The two branches of a selection differ in type.
    BranchMismatch,
    /// A call or a struct literal has another number of arguments than
    /// were declared.
    ArgumentCount,
    /// An argument has another type than was declared.
    ArgumentType,
    /// A parameter of a function is not a variable without initializer.
    NotAParameter,
    /// A struct type was given as a vertex attribute.
    StructLeaf,
    /// A sampler type was given as a vertex attribute.
    SamplerLeaf,
    /// An array type was given as a vertex attribute.
    ArrayLeaf,
    /// A boolean type was given as a vertex attribute.
    BoolLeaf,
    /// A vertex buffer was declared with a stride of zero.
    ZeroStride,
    /// The length of a vertex buffer is not a multiple of its stride.
    BufferLength,
    /// A vertex buffer belongs to another context than the one it is bound
    /// in.
    ForeignBuffer,
    /// An attribute reaches beyond the stride of its buffer.
    AttributeBeyondStride,
    /// The inputs handed to a stage do not match the declared block.
    InterfaceMismatch,
    /// A function or stage uses an input that is neither one of its
    /// parameters nor a resource.
    UndeclaredInput,
    /// A sampler of booleans was declared as a resource.
    SamplerType,
}

/// The first refusal among the checks from position `i` on.
pub open spec fn first_error(checks: Seq<Option<Error>>, i: int) -> Option<Error>
    decreases checks.len() - i,
{
    if i < 0 || i >= checks.len() {
        None
    } else if checks[i] is Some {
        checks[i]
    } else {
        first_error(checks, i + 1)
    }
}

/// Checks that pass do not count.
pub proof fn lemma_first_error_skips(checks: Seq<Option<Error>>, i: int, k: int)
    requires
        0 <= i <= k <= checks.len(),
        forall|j: int| i <= j < k ==> (#[trigger] checks[j]) is None,
    ensures
        first_error(checks, i) == first_error(checks, k),
    decreases k - i,
{
    if i < k {
        lemma_first_error_skips(checks, i + 1, k);
    }
}

} // verus!
