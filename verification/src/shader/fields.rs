//! Paths of fields: how the name of a nested field is made, and which
//! named values a type unfolds to in a shader.

use vstd::prelude::*;
use crate::error::Error;
use crate::lang::{BaseType, StructId, Type};
use crate::layout::{
    attribute_refusal, field_offset, flat, lemma_flat_prefix, struct_leaves, type_leaves,
};
use crate::program_def::Leaf;
use crate::registry::{entry_ok, Entry, Registry};
use crate::text::joined;

verus! {

/// Joins a path and a component with the separator between them.
pub fn add_prefix(lhs: &str, rhs: &str) -> (r: String)
    ensures
        r@ == joined(lhs@, rhs@),
{
    proof {
        reveal_strlit("_");
    }
    let mut r: String = String::from_str(lhs);
    r.append("_");
    r.append(rhs);
    r
}

/// The named values that the first `k` fields of struct `id` unfold to in
/// a shader: the scalars and vectors in the order of their declaration,
/// nested structs included, each with the path that leads to it from
/// `path`.
pub open spec fn struct_paths(reg: Seq<Entry>, id: int, k: int, path: Seq<char>) -> Seq<
    (Seq<char>, Type),
>
    decreases id, k,
{
    if id < 0 || id >= reg.len() || k <= 0 || k > reg[id].ty.fields@.len() {
        Seq::empty()
    } else {
        let fields = reg[id].ty.fields@;
        let name = joined(path, fields[k - 1].0@);
        struct_paths(reg, id, k - 1, path) + match fields[k - 1].1 {
            Type::Base(BaseType::Struct(sub)) => {
                if sub.index < id {
                    struct_paths(
                        reg,
                        sub.index as int,
                        reg[sub.index as int].ty.fields@.len() as int,
                        name,
                    )
                } else {
                    Seq::empty()
                }
            },
            Type::Base(_) => seq![(name, fields[k - 1].1)],
            Type::Array(_, _) => Seq::empty(),
        }
    }
}

/// The named values that a value of type `ty` named `path` unfolds to.
pub open spec fn type_paths(reg: Seq<Entry>, ty: Type, path: Seq<char>) -> Seq<(Seq<char>, Type)> {
    match ty {
        Type::Base(BaseType::Struct(id)) => struct_paths(
            reg,
            id.index as int,
            reg[id.index as int].ty.fields@.len() as int,
            path,
        ),
        _ => seq![(path, ty)],
    }
}

/// The path and type of a leaf of a layout.
pub open spec fn named(l: Leaf) -> (Seq<char>, Type) {
    (l.path, l.ty)
}

/// The values that a struct unfolds to in a shader are the leaves of its
/// layout in a buffer: the same paths with the same types in the same
/// order.
pub proof fn law_struct_paths_are_leaves(reg: Seq<Entry>, id: int, k: int, path: Seq<char>, base: nat)
    ensures
        struct_leaves(reg, id, k, path, base).map_values(|l: Leaf| named(l)) == struct_paths(
            reg,
            id,
            k,
            path,
        ),
    decreases id, k,
{
    if 0 <= id < reg.len() && 0 < k <= reg[id].ty.fields@.len() {
        let fields = reg[id].ty.fields@;
        law_struct_paths_are_leaves(reg, id, k - 1, path, base);
        if let Type::Base(BaseType::Struct(sub)) = fields[k - 1].1 {
            if sub.index < id {
                law_struct_paths_are_leaves(
                    reg,
                    sub.index as int,
                    reg[sub.index as int].ty.fields@.len() as int,
                    joined(path, fields[k - 1].0@),
                    base + field_offset(reg, fields, (k - 1) as nat),
                );
            }
        }
    }
}

/// The values that a type unfolds to in a shader are the leaves of its
/// layout in a buffer: the same paths with the same types in the same
/// order.
pub proof fn law_paths_are_leaves(reg: Seq<Entry>, ty: Type, path: Seq<char>)
    ensures
        type_leaves(reg, ty, path).map_values(|l: Leaf| named(l)) == type_paths(reg, ty, path),
{
    match ty {
        Type::Base(BaseType::Struct(id)) => {
            law_struct_paths_are_leaves(
                reg,
                id.index as int,
                reg[id.index as int].ty.fields@.len() as int,
                path,
                0,
            );
        },
        _ => {},
    }
}

/// What a list of named types says.
pub open spec fn paths_of(fields: Seq<(String, Type)>) -> Seq<(Seq<char>, Type)> {
    fields.map_values(|f: (String, Type)| (f.0@, f.1))
}

/// Appends the named values of a registered struct to `out`, or reports
/// that the struct holds an array.
fn collect_fields(reg: &Registry, id: StructId, path: &str, out: &mut Vec<(String, Type)>) -> (ok:
    bool)
    requires
        reg.wf(),
        id.index < reg@.len(),
    ensures
        ok == flat(reg@, id.index as int, reg@[id.index as int].ty.fields@.len() as int),
        ok ==> paths_of(final(out)@) == paths_of(old(out)@) + struct_paths(
            reg@,
            id.index as int,
            reg@[id.index as int].ty.fields@.len() as int,
            path@,
        ),
    decreases id.index,
{
    let entry = reg.get(id);
    let fields = &entry.ty.fields;
    let ghost r = reg@;
    let ghost i = id.index as int;
    let mut k: usize = 0;
    while k < fields.len()
        invariant
            k <= fields.len(),
            reg.wf(),
            r == reg@,
            i == id.index,
            0 <= i < r.len(),
            entry_ok(r, i),
            *fields == r[i].ty.fields,
            flat(r, i, k as int),
            paths_of(out@) == paths_of(old(out)@) + struct_paths(r, i, k as int, path@),
        decreases fields.len() - k,
    {
        let field_ty: Type = fields[k].1;
        let name: String = add_prefix(path, fields[k].0.as_str());
        let ghost before = out@;
        match field_ty {
            Type::Base(BaseType::Struct(sub)) => {
                if !collect_fields(reg, sub, name.as_str(), out) {
                    proof {
                        if flat(r, i, fields@.len() as int) {
                            lemma_flat_prefix(r, i, k + 1, fields@.len() as int);
                        }
                    }
                    return false;
                }
            },
            Type::Base(_) => {
                let ghost n = name@;
                out.push((name, field_ty));
                assert(paths_of(out@) =~= paths_of(before) + seq![(n, field_ty)]);
            },
            Type::Array(_, _) => {
                proof {
                    if flat(r, i, fields@.len() as int) {
                        lemma_flat_prefix(r, i, k + 1, fields@.len() as int);
                    }
                }
                return false;
            },
        }
        k += 1;
    }
    true
}

/// The named values that a value of type `ty` named `prefix` unfolds to in
/// a shader. A sampler, an array and a struct that holds an array unfold
/// to none.
pub fn fields(reg: &Registry, ty: Type, prefix: &str) -> (r: Result<Vec<(String, Type)>, Error>)
    requires
        reg.wf(),
    ensures
        match r {
            Ok(list) => attribute_refusal(reg@, ty) is None && paths_of(list@) == type_paths(
                reg@,
                ty,
                prefix@,
            ),
            Err(e) => attribute_refusal(reg@, ty) == Some(e),
        },
{
    let mut out: Vec<(String, Type)> = Vec::new();
    match ty {
        Type::Array(_, _) => Err(Error::ArrayLeaf),
        Type::Base(BaseType::Sampler2d(_)) => Err(Error::SamplerLeaf),
        Type::Base(BaseType::Struct(id)) => {
            if !reg.contains(id) {
                return Err(Error::UnregisteredStruct);
            }
            if collect_fields(reg, id, prefix, &mut out) {
                Ok(out)
            } else {
                Err(Error::ArrayLeaf)
            }
        },
        Type::Base(_) => {
            let name: String = String::from_str(prefix);
            out.push((name, ty));
            Ok(out)
        },
    }
}

/// The named values that a pair of values named `prefix` unfolds to:
/// those of the first, named `x0` under the prefix, and then those of the
/// second, named `x1`.
pub open spec fn pair_paths(reg: Seq<Entry>, first: Type, second: Type, prefix: Seq<char>) -> Seq<
    (Seq<char>, Type),
> {
    type_paths(reg, first, joined(prefix, "x0"@)) + type_paths(reg, second, joined(prefix, "x1"@))
}

/// Why a pair of types does not unfold, if it does not: the refusal of
/// the first type, or else that of the second.
pub open spec fn pair_refusal(reg: Seq<Entry>, first: Type, second: Type) -> Option<Error> {
    match attribute_refusal(reg, first) {
        Some(e) => Some(e),
        None => attribute_refusal(reg, second),
    }
}

/// The named values that a pair of values named `prefix` unfolds to in a
/// shader.
pub fn pair_fields(reg: &Registry, first: Type, second: Type, prefix: &str) -> (r: Result<
    Vec<(String, Type)>,
    Error,
>)
    requires
        reg.wf(),
    ensures
        match r {
            Ok(list) => pair_refusal(reg@, first, second) is None && paths_of(list@) == pair_paths(
                reg@,
                first,
                second,
                prefix@,
            ),
            Err(e) => pair_refusal(reg@, first, second) == Some(e),
        },
{
    let mut list = fields(reg, first, add_prefix(prefix, "x0").as_str())?;
    let mut rest = fields(reg, second, add_prefix(prefix, "x1").as_str())?;
    list.append(&mut rest);
    Ok(list)
}

} // verus!
