//! Values of struct type in a shader: taking a struct value apart into
//! its fields, putting one together from its fields, and the inputs that
//! stand for a block of a vertex buffer or of a uniform buffer.

use vstd::prelude::*;
use crate::dag::{lemma_types_kept, Graph};
use crate::error::Error;
use crate::lang::{
    BaseType, Expr, ExprCall, ExprField, ExprVar, Func, FuncBuiltIn, Ident, StructId, Trace, Type,
    Var,
};
use crate::layout::attribute_refusal;
use crate::registry::Registry;
use crate::shader::fields::{fields, type_paths};
use crate::show::{struct_name, struct_text};
use crate::value::primitives::{all_known, is_builtin_call, is_field, known};

verus! {

/// Why a value cannot be taken apart into fields, if it cannot.
pub open spec fn from_expr_refusal(g: &Graph, reg: &Registry, base: Trace) -> Option<Error> {
    if !g.has(base) {
        Some(Error::UnknownNode)
    } else {
        match g.type_of(base) {
            Type::Base(BaseType::Struct(id)) => if id.index >= reg@.len() {
                Some(Error::UnregisteredStruct)
            } else {
                None
            },
            _ => Some(Error::NotAStruct),
        }
    }
}

/// The declared fields of the struct type of a node.
pub open spec fn fields_of(g: &Graph, reg: &Registry, base: Trace) -> Seq<(String, Type)> {
    match g.type_of(base) {
        Type::Base(BaseType::Struct(id)) => reg@[id.index as int].ty.fields@,
        _ => Seq::empty(),
    }
}

/// Takes a struct value apart: builds one field access per declared
/// field, in the order of declaration, each addressed by its name off
/// `base`.
pub fn from_expr(g: &mut Graph, reg: &Registry, base: Trace) -> (r: Result<Vec<Trace>, Error>)
    requires
        old(g).wf(),
    ensures
        final(g).wf(),
        match r {
            Ok(list) => {
                let declared = fields_of(old(g), reg, base);
                &&& from_expr_refusal(old(g), reg, base) is None
                &&& final(g).grown_by(old(g), declared.len())
                &&& list@.len() == declared.len()
                &&& forall|i: int|
                    0 <= i < declared.len() ==> {
                        &&& (#[trigger] list@[i]).index == old(g).nodes().len() + i
                        &&& is_field(
                            final(g).nodes()[old(g).nodes().len() + i],
                            base,
                            declared[i].0@,
                            declared[i].1,
                        )
                        &&& final(g).type_of(list@[i]) == declared[i].1
                    }
            },
            Err(e) => from_expr_refusal(old(g), reg, base) == Some(e) && final(g).same_as(old(g)),
        },
{
    if !g.contains(base) {
        return Err(Error::UnknownNode);
    }
    let id = match g.ty(base) {
        Type::Base(BaseType::Struct(id)) => id,
        _ => {
            return Err(Error::NotAStruct);
        },
    };
    if !reg.contains(id) {
        return Err(Error::UnregisteredStruct);
    }
    let declared = &reg.get(id).ty.fields;
    let mut list: Vec<Trace> = Vec::new();
    let ghost start = g.nodes().len();
    proof {
        g.lemma_grown_none();
    }
    let mut i: usize = 0;
    while i < declared.len()
        invariant
            i <= declared.len(),
            declared@ == fields_of(old(g), reg, base),
            start == old(g).nodes().len(),
            base.index < start,
            old(g).type_of(base).is_struct(),
            g.grown_by(old(g), i as nat),
            list@.len() == i,
            forall|j: int|
                0 <= j < i ==> {
                    &&& (#[trigger] list@[j]).index == start + j
                    &&& is_field(g.nodes()[start + j], base, declared@[j].0@, declared@[j].1)
                    &&& g.type_of(list@[j]) == declared@[j].1
                },
        decreases declared.len() - i,
    {
        let e = Expr::Field(
            ExprField { base, member: declared[i].0.clone(), ty: declared[i].1 },
        );
        let ghost mid = *g;
        proof {
            lemma_types_kept(g.nodes(), g.funcs(), e, base.index as int);
        }
        let t = g.push(e);
        list.push(t);
        proof {
            g.lemma_grown_step(&mid, old(g), i as nat, t);
            assert forall|j: int| 0 <= j < i + 1 implies {
                &&& (#[trigger] list@[j]).index == start + j
                &&& is_field(g.nodes()[start + j], base, declared@[j].0@, declared@[j].1)
                &&& g.type_of(list@[j]) == declared@[j].1
            } by {}
        }
        i += 1;
    }
    Ok(list)
}

/// Why a struct value cannot be put together, if it cannot.
pub open spec fn expr_refusal(g: &Graph, reg: &Registry, id: StructId, values: Seq<Trace>) -> Option<
    Error,
> {
    if id.index >= reg@.len() {
        Some(Error::UnregisteredStruct)
    } else if !all_known(g, values) {
        Some(Error::UnknownNode)
    } else if values.len() != reg@[id.index as int].ty.fields@.len() {
        Some(Error::ArgumentCount)
    } else if !(forall|i: int|
        0 <= i < values.len() ==> g.type_of(#[trigger] values[i]) == reg@[id.index as int].ty.fields@[i].1) {
        Some(Error::ArgumentType)
    } else {
        None
    }
}

/// Puts a struct value together from one value per declared field: a call
/// of the constructor, which carries the name under which the struct is
/// declared.
#[verifier::loop_isolation(false)]
pub fn expr(g: &mut Graph, reg: &Registry, id: StructId, values: Vec<Trace>) -> (r: Result<
    Trace,
    Error,
>)
    requires
        old(g).wf(),
    ensures
        final(g).wf(),
        match r {
            Ok(t) => {
                &&& expr_refusal(old(g), reg, id, values@) is None
                &&& final(g).appended(old(g), t)
                &&& is_builtin_call(
                    final(g).nodes()[t.index as int],
                    struct_text(reg@, id),
                    Type::Base(BaseType::Struct(id)),
                    values@,
                )
                &&& final(g).type_of(t) == Type::Base(BaseType::Struct(id))
            },
            Err(e) => expr_refusal(old(g), reg, id, values@) == Some(e) && final(g).same_as(old(g)),
        },
{
    if !reg.contains(id) {
        return Err(Error::UnregisteredStruct);
    }
    if !known(g, &values) {
        return Err(Error::UnknownNode);
    }
    let declared = &reg.get(id).ty;
    if values.len() != declared.fields.len() {
        return Err(Error::ArgumentCount);
    }
    let mut i: usize = 0;
    while i < values.len()
        invariant
            i <= values.len(),
            g.wf(),
            all_known(g, values@),
            values@.len() == declared.fields@.len(),
            forall|j: int| 0 <= j < i ==> g.type_of(#[trigger] values@[j]) == declared.fields@[j].1,
        decreases values.len() - i,
    {
        if g.ty(values[i]) != declared.fields[i].1 {
            return Err(Error::ArgumentType);
        }
        i += 1;
    }
    let ty: Type = Type::Base(BaseType::Struct(id));
    let e = Expr::Call(
        ExprCall { func: Func::BuiltIn(FuncBuiltIn { name: struct_name(reg, id), ty }), args: values },
    );
    Ok(g.push(e))
}

/// Whether node `node` is an input named `name` of type `ty`.
pub open spec fn is_input(node: Expr, name: Seq<char>, ty: Type) -> bool {
    node matches Expr::Var(e) && e.var.ident.name@ == name && e.var.ty == ty && e.var.init is None
}

/// The input that stands for a uniform block of type `ty` at `path`: one
/// variable named by the path.
pub fn uniform_input(g: &mut Graph, ty: Type, path: &str) -> (t: Trace)
    requires
        old(g).wf(),
    ensures
        final(g).appended(old(g), t),
        is_input(final(g).nodes()[t.index as int], path@, ty),
        final(g).type_of(t) == ty,
{
    let ident = Ident::new(String::from_str(path));
    g.push(Expr::Var(ExprVar { var: Var { ident, ty, init: None } }))
}

/// The inputs that stand for a vertex of type `ty` at `path`: one
/// variable for each scalar and vector that the type unfolds to, named by
/// the path that leads to it, in the order of declaration.
pub fn vertex_input(g: &mut Graph, reg: &Registry, ty: Type, path: &str) -> (r: Result<
    Vec<Trace>,
    Error,
>)
    requires
        old(g).wf(),
        reg.wf(),
    ensures
        final(g).wf(),
        match r {
            Ok(list) => {
                let leaves = type_paths(reg@, ty, path@);
                &&& attribute_refusal(reg@, ty) is None
                &&& final(g).grown_by(old(g), leaves.len())
                &&& list@.len() == leaves.len()
                &&& forall|i: int|
                    0 <= i < leaves.len() ==> {
                        &&& (#[trigger] list@[i]).index == old(g).nodes().len() + i
                        &&& is_input(
                            final(g).nodes()[old(g).nodes().len() + i],
                            leaves[i].0,
                            leaves[i].1,
                        )
                    }
            },
            Err(e) => attribute_refusal(reg@, ty) == Some(e) && final(g).same_as(old(g)),
        },
{
    let leaves = fields(reg, ty, path)?;
    let mut list: Vec<Trace> = Vec::new();
    let ghost start = g.nodes().len();
    proof {
        g.lemma_grown_none();
    }
    let mut i: usize = 0;
    while i < leaves.len()
        invariant
            i <= leaves.len(),
            start == old(g).nodes().len(),
            g.grown_by(old(g), i as nat),
            list@.len() == i,
            forall|j: int|
                0 <= j < i ==> {
                    &&& (#[trigger] list@[j]).index == start + j
                    &&& is_input(g.nodes()[start + j], leaves@[j].0@, leaves@[j].1)
                },
        decreases leaves.len() - i,
    {
        let ident = Ident::new(leaves[i].0.clone());
        let e = Expr::Var(ExprVar { var: Var { ident, ty: leaves[i].1, init: None } });
        let ghost mid = *g;
        let t = g.push(e);
        list.push(t);
        proof {
            g.lemma_grown_step(&mid, old(g), i as nat, t);
            assert forall|j: int| 0 <= j < i + 1 implies {
                &&& (#[trigger] list@[j]).index == start + j
                &&& is_input(g.nodes()[start + j], leaves@[j].0@, leaves@[j].1)
            } by {
                if j < i {
                    assert(g.nodes()[start + j] == mid.nodes()[start + j]);
                }
            }
        }
        i += 1;
    }
    Ok(list)
}

} // verus!
