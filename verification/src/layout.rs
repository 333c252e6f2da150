//! The buffer layout standard: alignment, size and offset of every field
//! of a struct as it lies in a buffer.
//!
//! Scalars are aligned to 4 bytes, two-component vectors to 8, three- and
//! four-component vectors, arrays and structs to 16. The elements of an
//! array are padded to 16 bytes each, and a struct is padded to a multiple
//! of 16 bytes.

use vstd::prelude::*;
use crate::error::Error;
use crate::lang::{BaseType, StructId, Type};
use crate::program_def::{
    leaf_of, leaves_of, Leaf, VertexAttributeDef, VertexDef, VertexInputRate,
};
use crate::registry::{entry_ok, Entry, Registry};
use crate::shader::fields::add_prefix;
use crate::text::joined;

verus! {

/// The largest size, in bytes, that a struct may be laid out to.
pub const MAX_SIZE: usize = 0x7fff_fff0;

/// `x` rounded up to the next multiple of `a`.
pub open spec fn round_up(x: nat, a: nat) -> nat {
    if a == 0 {
        x
    } else {
        (((x + a - 1) / (a as int)) * a) as nat
    }
}

/// The alignment of a base type.
pub open spec fn base_align(b: BaseType) -> nat {
    match b {
        BaseType::Scalar(_) => 4,
        BaseType::Vec2(_) => 8,
        BaseType::Vec3(_) => 16,
        BaseType::Vec4(_) => 16,
        BaseType::Struct(_) => 16,
        BaseType::Sampler2d(_) => 1,
    }
}

/// The size of a base type; that of a struct is the size its registry
/// recorded for it. A sampler takes no room in a buffer.
pub open spec fn base_size(reg: Seq<Entry>, b: BaseType) -> nat {
    match b {
        BaseType::Scalar(_) => 4,
        BaseType::Vec2(_) => 8,
        BaseType::Vec3(_) => 12,
        BaseType::Vec4(_) => 16,
        BaseType::Struct(id) => if id.index < reg.len() {
            reg[id.index as int].size as nat
        } else {
            0
        },
        BaseType::Sampler2d(_) => 0,
    }
}

/// The alignment of a type.
pub open spec fn align_of(ty: Type) -> nat {
    match ty {
        Type::Base(b) => base_align(b),
        Type::Array(_, _) => 16,
    }
}

/// The size of a type.
pub open spec fn size_of(reg: Seq<Entry>, ty: Type) -> nat {
    match ty {
        Type::Base(b) => base_size(reg, b),
        Type::Array(b, len) => round_up(base_size(reg, b), 16) * (len as nat),
    }
}

/// Where the first `k` fields end.
pub open spec fn end_offset(reg: Seq<Entry>, fields: Seq<(String, Type)>, k: nat) -> nat
    decreases k, 0nat,
{
    if k == 0 || k > fields.len() {
        0
    } else {
        field_offset(reg, fields, (k - 1) as nat) + size_of(reg, fields[k - 1].1)
    }
}

/// Where field `i` begins: the end of the fields before it, rounded up to
/// its own alignment.
pub open spec fn field_offset(reg: Seq<Entry>, fields: Seq<(String, Type)>, i: nat) -> nat
    decreases i, 1nat,
{
    round_up(end_offset(reg, fields, i), align_of(fields[i as int].1))
}

/// The size of a struct of these fields: the end of the last field,
/// rounded up to 16.
pub open spec fn struct_size(reg: Seq<Entry>, fields: Seq<(String, Type)>) -> nat {
    round_up(end_offset(reg, fields, fields.len()), 16)
}

/// Rounding up gives the least multiple that is not below.
pub proof fn lemma_round_up(x: nat, a: nat)
    requires
        a == 1 || a == 4 || a == 8 || a == 16,
    ensures
        x <= round_up(x, a) < x + a,
        round_up(x, a) % a == 0,
{
}

/// The fields of a struct do not overlap and lie within its size.
pub proof fn lemma_field_within(reg: Seq<Entry>, fields: Seq<(String, Type)>, i: nat)
    requires
        i < fields.len(),
    ensures
        field_offset(reg, fields, i) + size_of(reg, fields[i as int].1) <= struct_size(
            reg,
            fields,
        ),
        i > 0 ==> field_offset(reg, fields, (i - 1) as nat) + size_of(reg, fields[i - 1].1)
            <= field_offset(reg, fields, i),
{
    lemma_end_monotone(reg, fields, i + 1, fields.len());
    lemma_align_values(fields[i as int].1);
    lemma_round_up(end_offset(reg, fields, fields.len()), 16);
    lemma_round_up(end_offset(reg, fields, i), align_of(fields[i as int].1));
}

/// An alignment is 1, 4, 8 or 16.
pub proof fn lemma_align_values(ty: Type)
    ensures
        align_of(ty) == 1 || align_of(ty) == 4 || align_of(ty) == 8 || align_of(ty) == 16,
{
}

/// The end of the fields grows with their number.
pub proof fn lemma_end_monotone(reg: Seq<Entry>, fields: Seq<(String, Type)>, j: nat, k: nat)
    requires
        j <= k <= fields.len(),
    ensures
        end_offset(reg, fields, j) <= end_offset(reg, fields, k),
    decreases k - j,
{
    if j < k {
        lemma_end_monotone(reg, fields, j, (k - 1) as nat);
        lemma_align_values(fields[k - 1].1);
        lemma_round_up(end_offset(reg, fields, (k - 1) as nat), align_of(fields[k - 1].1));
    }
}

/// Structs registered later do not change the layout of fields that name
/// none of them.
pub proof fn lemma_end_extends(reg: Seq<Entry>, more: Seq<Entry>, fields: Seq<(String, Type)>, k: nat)
    requires
        reg.len() <= more.len(),
        forall|i: int| 0 <= i < reg.len() ==> more[i] == reg[i],
        forall|i: int| 0 <= i < fields.len() ==> (#[trigger] fields[i]).1.within(reg.len()),
        k <= fields.len(),
    ensures
        end_offset(more, fields, k) == end_offset(reg, fields, k),
        k < fields.len() ==> field_offset(more, fields, k) == field_offset(reg, fields, k),
        k < fields.len() ==> size_of(more, fields[k as int].1) == size_of(reg, fields[k as int].1),
    decreases k,
{
    if k > 0 {
        lemma_end_extends(reg, more, fields, (k - 1) as nat);
    }
}

/// `x` rounded up to the alignment `a`.
pub fn align_up(x: usize, a: usize) -> (r: usize)
    requires
        a == 1 || a == 4 || a == 8 || a == 16,
        x + a <= usize::MAX,
    ensures
        r == round_up(x as nat, a as nat),
        x <= r < x + a,
{
    if a == 1 {
        x
    } else if a == 4 {
        (x + 3) / 4 * 4
    } else if a == 8 {
        (x + 7) / 8 * 8
    } else {
        (x + 15) / 16 * 16
    }
}

/// The alignment of a type.
pub fn alignment(ty: Type) -> (r: usize)
    ensures
        r == align_of(ty),
        r == 1 || r == 4 || r == 8 || r == 16,
{
    match ty {
        Type::Base(BaseType::Scalar(_)) => 4,
        Type::Base(BaseType::Vec2(_)) => 8,
        Type::Base(BaseType::Sampler2d(_)) => 1,
        _ => 16,
    }
}

/// Whether the first `k` fields of struct `id` hold no array, at any
/// depth.
pub open spec fn flat(reg: Seq<Entry>, id: int, k: int) -> bool
    decreases id, k,
{
    if id < 0 || id >= reg.len() || k <= 0 || k > reg[id].ty.fields@.len() {
        true
    } else {
        flat(reg, id, k - 1) && match reg[id].ty.fields@[k - 1].1 {
            Type::Base(BaseType::Struct(sub)) => {
                if sub.index < id {
                    flat(reg, sub.index as int, reg[sub.index as int].ty.fields@.len() as int)
                } else {
                    false
                }
            },
            Type::Base(_) => true,
            Type::Array(_, _) => false,
        }
    }
}

/// The scalars and vectors among the first `k` fields of struct `id`, in
/// the order of their declaration, nested structs included. Each is named
/// by the path that leads to it from `path` and lies at its offset from
/// the start of the struct plus `base`.
pub open spec fn struct_leaves(reg: Seq<Entry>, id: int, k: int, path: Seq<char>, base: nat) -> Seq<
    Leaf,
>
    decreases id, k,
{
    if id < 0 || id >= reg.len() || k <= 0 || k > reg[id].ty.fields@.len() {
        Seq::empty()
    } else {
        let fields = reg[id].ty.fields@;
        let name = joined(path, fields[k - 1].0@);
        let at = base + field_offset(reg, fields, (k - 1) as nat);
        struct_leaves(reg, id, k - 1, path, base) + match fields[k - 1].1 {
            Type::Base(BaseType::Struct(sub)) => {
                if sub.index < id {
                    struct_leaves(
                        reg,
                        sub.index as int,
                        reg[sub.index as int].ty.fields@.len() as int,
                        name,
                        at,
                    )
                } else {
                    Seq::empty()
                }
            },
            Type::Base(_) => seq![Leaf { path: name, ty: fields[k - 1].1, offset: at }],
            Type::Array(_, _) => Seq::empty(),
        }
    }
}

/// Why a type cannot be laid out as vertex attributes, if it cannot.
pub open spec fn attribute_refusal(reg: Seq<Entry>, ty: Type) -> Option<Error> {
    match ty {
        Type::Array(_, _) => Some(Error::ArrayLeaf),
        Type::Base(BaseType::Sampler2d(_)) => Some(Error::SamplerLeaf),
        Type::Base(BaseType::Struct(id)) => {
            if id.index >= reg.len() {
                Some(Error::UnregisteredStruct)
            } else if !flat(reg, id.index as int, reg[id.index as int].ty.fields@.len() as int) {
                Some(Error::ArrayLeaf)
            } else {
                None
            }
        },
        Type::Base(_) => None,
    }
}

/// The attributes of a value of type `ty` that is named `path` and lies
/// at the start of a vertex.
pub open spec fn type_leaves(reg: Seq<Entry>, ty: Type, path: Seq<char>) -> Seq<Leaf> {
    match ty {
        Type::Base(BaseType::Struct(id)) => struct_leaves(
            reg,
            id.index as int,
            reg[id.index as int].ty.fields@.len() as int,
            path,
            0,
        ),
        _ => seq![Leaf { path, ty, offset: 0 }],
    }
}

/// The number of bytes from one vertex of type `ty` to the next.
pub open spec fn stride_of(reg: Seq<Entry>, ty: Type) -> nat {
    size_of(reg, ty)
}

/// Fields without arrays stay so when fewer of them are looked at.
pub proof fn lemma_flat_prefix(reg: Seq<Entry>, id: int, j: int, k: int)
    requires
        0 <= id < reg.len(),
        0 <= j <= k <= reg[id].ty.fields@.len(),
        flat(reg, id, k),
    ensures
        flat(reg, id, j),
    decreases k - j,
{
    if j < k {
        lemma_flat_prefix(reg, id, j, k - 1);
    }
}

/// Appends the attributes of a registered struct to `out`, or reports
/// that the struct holds an array.
fn collect_defs(
    reg: &Registry,
    id: StructId,
    path: &str,
    base: usize,
    out: &mut Vec<VertexAttributeDef>,
) -> (ok: bool)
    requires
        reg.wf(),
        id.index < reg@.len(),
        base + reg@[id.index as int].size <= usize::MAX,
    ensures
        ok == flat(reg@, id.index as int, reg@[id.index as int].ty.fields@.len() as int),
        ok ==> leaves_of(final(out)@) == leaves_of(old(out)@) + struct_leaves(
            reg@,
            id.index as int,
            reg@[id.index as int].ty.fields@.len() as int,
            path@,
            base as nat,
        ),
    decreases id.index,
{
    let entry = reg.get(id);
    let fields = &entry.ty.fields;
    let ghost r = reg@;
    let ghost i = id.index as int;
    let mut offset: usize = 0;
    let mut k: usize = 0;
    while k < fields.len()
        invariant
            k <= fields.len(),
            reg.wf(),
            r == reg@,
            i == id.index,
            0 <= i < r.len(),
            entry_ok(r, i),
            *fields == r[i].ty.fields,
            base + r[i].size <= usize::MAX,
            offset == end_offset(r, fields@, k as nat),
            offset <= r[i].size,
            flat(r, i, k as int),
            leaves_of(out@) == leaves_of(old(out)@) + struct_leaves(r, i, k as int, path@, base as nat),
        decreases fields.len() - k,
    {
        let field_ty: Type = fields[k].1;
        proof {
            lemma_field_within(r, fields@, k as nat);
        }
        let a: usize = alignment(field_ty);
        let start: usize = align_up(offset, a);
        let size: usize = match reg.size(field_ty) {
            Some(size) => size,
            None => {
                return false;
            },
        };
        let name: String = add_prefix(path, fields[k].0.as_str());
        let ghost before = out@;
        match field_ty {
            Type::Base(BaseType::Struct(sub)) => {
                if !collect_defs(reg, sub, name.as_str(), base + start, out) {
                    proof {
                        if flat(r, i, fields@.len() as int) {
                            lemma_flat_prefix(r, i, k + 1, fields@.len() as int);
                        }
                    }
                    return false;
                }
            },
            Type::Base(_) => {
                let def = VertexAttributeDef { name, ty: field_ty, offset: base + start };
                out.push(def);
                assert(leaves_of(out@) =~= leaves_of(before) + seq![leaf_of(def)]);
            },
            Type::Array(_, _) => {
                proof {
                    if flat(r, i, fields@.len() as int) {
                        lemma_flat_prefix(r, i, k + 1, fields@.len() as int);
                    }
                }
                return false;
            },
        }
        offset = start + size;
        k += 1;
    }
    true
}

/// The attributes of a value of type `ty` named `path`: its scalars and
/// vectors in the order of their declaration, each with its byte offset.
/// A sampler, an array and a struct that holds an array have none.
pub fn vertex_attribute_defs(reg: &Registry, ty: Type, path: &str) -> (r: Result<
    Vec<VertexAttributeDef>,
    Error,
>)
    requires
        reg.wf(),
    ensures
        match r {
            Ok(defs) => attribute_refusal(reg@, ty) is None && leaves_of(defs@) == type_leaves(
                reg@,
                ty,
                path@,
            ),
            Err(e) => attribute_refusal(reg@, ty) == Some(e),
        },
{
    let mut out: Vec<VertexAttributeDef> = Vec::new();
    match ty {
        Type::Array(_, _) => Err(Error::ArrayLeaf),
        Type::Base(BaseType::Sampler2d(_)) => Err(Error::SamplerLeaf),
        Type::Base(BaseType::Struct(id)) => {
            if !reg.contains(id) {
                return Err(Error::UnregisteredStruct);
            }
            if collect_defs(reg, id, path, 0, &mut out) {
                Ok(out)
            } else {
                Err(Error::ArrayLeaf)
            }
        },
        Type::Base(_) => {
            let def = VertexAttributeDef { name: String::from_str(path), ty, offset: 0 };
            out.push(def);
            Ok(out)
        },
    }
}

/// What a vertex buffer definition says.
pub open spec fn is_layout(def: VertexDef, reg: Seq<Entry>, ty: Type, path: Seq<char>, rate: VertexInputRate) -> bool {
    &&& def.input_rate == rate
    &&& def.stride == stride_of(reg, ty)
    &&& leaves_of(def.attributes@) == type_leaves(reg, ty, path)
}

/// Resolves the layout of a vertex buffer whose vertices are values of
/// type `ty`: the stride from one vertex to the next and the attributes
/// of a vertex.
pub fn resolve_layout(reg: &Registry, ty: Type, path: &str, input_rate: VertexInputRate) -> (r:
    Result<VertexDef, Error>)
    requires
        reg.wf(),
    ensures
        match r {
            Ok(def) => attribute_refusal(reg@, ty) is None && is_layout(
                def,
                reg@,
                ty,
                path@,
                input_rate,
            ),
            Err(e) => attribute_refusal(reg@, ty) == Some(e),
        },
{
    let attributes = vertex_attribute_defs(reg, ty, path)?;
    match reg.size(ty) {
        Some(stride) => Ok(VertexDef { input_rate, stride, attributes }),
        None => Err(Error::TooLarge),
    }
}

/// A leaf moved by `by` bytes.
pub open spec fn moved(l: Leaf, by: nat) -> Leaf {
    Leaf { path: l.path, ty: l.ty, offset: l.offset + by }
}

/// Leaves moved by `by` bytes.
pub open spec fn shifted(leaves: Seq<Leaf>, by: nat) -> Seq<Leaf> {
    leaves.map_values(|l: Leaf| moved(l, by))
}

/// The leaves of a struct that lies `base` bytes into a buffer are its
/// leaves at the start of a buffer, each moved by `base` bytes.
pub proof fn law_leaves_move_with_base(reg: Seq<Entry>, id: int, k: int, path: Seq<char>, base: nat)
    ensures
        struct_leaves(reg, id, k, path, base) == shifted(struct_leaves(reg, id, k, path, 0), base),
    decreases id, k,
{
    if 0 <= id < reg.len() && 0 < k <= reg[id].ty.fields@.len() {
        let fields = reg[id].ty.fields@;
        let name = joined(path, fields[k - 1].0@);
        let off = field_offset(reg, fields, (k - 1) as nat);
        law_leaves_move_with_base(reg, id, k - 1, path, base);
        if let Type::Base(BaseType::Struct(sub)) = fields[k - 1].1 {
            if sub.index < id {
                let n = reg[sub.index as int].ty.fields@.len() as int;
                law_leaves_move_with_base(reg, sub.index as int, n, name, base + off);
                law_leaves_move_with_base(reg, sub.index as int, n, name, off);
            }
        }
    }
}

/// A nested struct contributes its own leaves, each moved to where the
/// struct begins: the end of the fields before it, rounded up to the
/// alignment of a struct.
pub proof fn law_nested_leaves_are_offset(
    reg: Seq<Entry>,
    id: int,
    k: int,
    path: Seq<char>,
    inner: int,
)
    requires
        0 <= inner < id < reg.len(),
        0 < k <= reg[id].ty.fields@.len(),
        reg[id].ty.fields@[k - 1].1 == Type::Base(
            BaseType::Struct(StructId { index: inner as usize }),
        ),
        inner <= usize::MAX,
    ensures
        struct_leaves(reg, id, k, path, 0) == struct_leaves(reg, id, k - 1, path, 0) + shifted(
            struct_leaves(
                reg,
                inner,
                reg[inner].ty.fields@.len() as int,
                joined(path, reg[id].ty.fields@[k - 1].0@),
                0,
            ),
            round_up(end_offset(reg, reg[id].ty.fields@, (k - 1) as nat), 16),
        ),
{
    let fields = reg[id].ty.fields@;
    law_leaves_move_with_base(
        reg,
        inner,
        reg[inner].ty.fields@.len() as int,
        joined(path, fields[k - 1].0@),
        field_offset(reg, fields, (k - 1) as nat),
    );
}

/// Two layouts of one type are the same layout: the stride and the
/// leaves are determined by the type and the path.
pub proof fn law_layout_is_determined(
    a: VertexDef,
    b: VertexDef,
    reg: Seq<Entry>,
    ty: Type,
    path: Seq<char>,
    rate: VertexInputRate,
)
    requires
        is_layout(a, reg, ty, path, rate),
        is_layout(b, reg, ty, path, rate),
    ensures
        a.input_rate == b.input_rate,
        a.stride == b.stride,
        leaves_of(a.attributes@) == leaves_of(b.attributes@),
{
}

} // verus!
