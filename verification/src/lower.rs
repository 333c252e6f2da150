//! Lowering: the source text of functions and stages.
//!
//! The value of a function is written as one expression. A node that more
//! than one node of that expression uses, and a variable with an
//! initializer, is bound to a name by a statement of its own before the
//! first statement that uses it, and is written as that name wherever it
//! is used. Every other node is written in full where it is used.

use vstd::prelude::*;
use crate::dag::{is_parameter, node_ok, node_ty, Graph};
use crate::error::Error;
use crate::lang::{Expr, FuncUserDefined, Trace, Type};
use crate::registry::{Entry, Registry};
use crate::scope::{analyse, hoisted, reaches, uses, Scope};
use crate::show::{
    expr_text, node_name, operand_text, type_text, write_expr, write_name, write_operand,
    write_type,
};

verus! {

/// For every node up to `root`, whether it is written as a name where it
/// is used: variables, and nodes with more than one user.
pub open spec fn by_name(nodes: Seq<Expr>, root: int) -> Seq<bool> {
    Seq::new((root + 1) as nat, |n: int| nodes[n] is Var || hoisted(nodes, root, n))
}

/// Whether a statement binds node `n` to its name in the function whose
/// value is `root`.
pub open spec fn declared(nodes: Seq<Expr>, root: int, n: int) -> bool {
    reaches(nodes, root, n) && match nodes[n] {
        Expr::Var(e) => e.var.init is Some,
        _ => hoisted(nodes, root, n),
    }
}

/// What node `n` is bound to: the initializer of a variable, the node
/// itself otherwise.
pub open spec fn definition_text(
    nodes: Seq<Expr>,
    funcs: Seq<FuncUserDefined>,
    names: Seq<bool>,
    n: int,
) -> Seq<char> {
    match nodes[n] {
        Expr::Var(e) => match e.var.init {
            Some(init) => operand_text(nodes, funcs, names, n, init.index as int),
            None => Seq::empty(),
        },
        _ => expr_text(nodes, funcs, names, n),
    }
}

/// The statement that binds node `n` to its name.
pub open spec fn binding_text(
    nodes: Seq<Expr>,
    funcs: Seq<FuncUserDefined>,
    reg: Seq<Entry>,
    names: Seq<bool>,
    n: int,
) -> Seq<char> {
    "    "@ + type_text(reg, node_ty(nodes, funcs, n)) + " "@ + node_name(nodes, n) + " = "@
        + definition_text(nodes, funcs, names, n) + ";\n"@
}

/// The statements that bind the nodes before `k`, in the order in which
/// the nodes were built.
pub open spec fn body_text(
    nodes: Seq<Expr>,
    funcs: Seq<FuncUserDefined>,
    reg: Seq<Entry>,
    root: int,
    k: nat,
) -> Seq<char>
    decreases k,
{
    if k == 0 {
        Seq::empty()
    } else {
        body_text(nodes, funcs, reg, root, (k - 1) as nat) + if declared(nodes, root, k - 1) {
            binding_text(nodes, funcs, reg, by_name(nodes, root), k - 1)
        } else {
            Seq::empty()
        }
    }
}

/// The first `k` parameters as they are declared.
pub open spec fn params_text(
    nodes: Seq<Expr>,
    funcs: Seq<FuncUserDefined>,
    reg: Seq<Entry>,
    params: Seq<Trace>,
    k: nat,
) -> Seq<char>
    decreases k,
{
    if k == 0 || k > params.len() {
        Seq::empty()
    } else {
        params_text(nodes, funcs, reg, params, (k - 1) as nat) + (if k > 1 {
            ", "@
        } else {
            Seq::empty()
        }) + type_text(reg, node_ty(nodes, funcs, params[k - 1].index as int)) + " "@ + node_name(
            nodes,
            params[k - 1].index as int,
        )
    }
}

/// The definition of a function named `name` with these parameters whose
/// value is node `root`.
pub open spec fn function_text(
    nodes: Seq<Expr>,
    funcs: Seq<FuncUserDefined>,
    reg: Seq<Entry>,
    name: Seq<char>,
    params: Seq<Trace>,
    root: int,
) -> Seq<char> {
    type_text(reg, node_ty(nodes, funcs, root)) + " "@ + name + "("@ + params_text(
        nodes,
        funcs,
        reg,
        params,
        params.len(),
    ) + ") {\n"@ + body_text(nodes, funcs, reg, root, (root + 1) as nat) + "    return "@
        + operand_text(nodes, funcs, by_name(nodes, root), root + 1, root) + ";\n}\n"@
}

/// Whether every type that the definition of a function names is known
/// to a registry of `known` structs.
pub open spec fn types_known(
    nodes: Seq<Expr>,
    funcs: Seq<FuncUserDefined>,
    known: nat,
    params: Seq<Trace>,
    root: int,
) -> bool {
    &&& node_ty(nodes, funcs, root).within(known)
    &&& forall|k: int|
        0 <= k < params.len() ==> node_ty(nodes, funcs, (#[trigger] params[k]).index as int).within(
            known,
        )
    &&& forall|n: int|
        0 <= n <= root && #[trigger] declared(nodes, root, n) ==> node_ty(nodes, funcs, n).within(
            known,
        )
}

/// Whether node `n` is among the handles.
pub open spec fn listed(list: Seq<Trace>, n: int) -> bool {
    exists|k: int| 0 <= k < list.len() && (#[trigger] list[k]).index == n
}

/// Whether every input that the value of `root` depends on is declared: a
/// parameter of the function or a resource of the program.
pub open spec fn inputs_declared(nodes: Seq<Expr>, root: int, params: Seq<Trace>, globals: Seq<Trace>) -> bool {
    forall|n: int|
        0 <= n <= root && #[trigger] reaches(nodes, root, n) && is_parameter(nodes, n) ==> listed(
            params,
            n,
        ) || listed(globals, n)
}

/// Why a function cannot be written, if it cannot: it names a struct that
/// the registry does not hold, or uses an input that is not declared.
pub open spec fn function_refusal(
    nodes: Seq<Expr>,
    funcs: Seq<FuncUserDefined>,
    known: nat,
    params: Seq<Trace>,
    globals: Seq<Trace>,
    root: int,
) -> Option<Error> {
    if !types_known(nodes, funcs, known, params, root) {
        Some(Error::UnregisteredStruct)
    } else if !inputs_declared(nodes, root, params, globals) {
        Some(Error::UndeclaredInput)
    } else {
        None
    }
}

/// A node that two nodes of a function use is bound once and written as
/// its name by both.
pub proof fn law_shared_node_is_bound(
    nodes: Seq<Expr>,
    funcs: Seq<FuncUserDefined>,
    root: int,
    p: int,
    q: int,
    n: int,
)
    requires
        crate::dag::graph_wf(nodes, funcs),
        0 <= root < nodes.len(),
        p != q,
        reaches(nodes, root, p),
        reaches(nodes, root, q),
        uses(nodes, p, n),
        uses(nodes, q, n),
    ensures
        reaches(nodes, root, n),
        nodes[n] is Var || declared(nodes, root, n),
        operand_text(nodes, funcs, by_name(nodes, root), p, n) == node_name(nodes, n),
        operand_text(nodes, funcs, by_name(nodes, root), q, n) == node_name(nodes, n),
{
    crate::scope::lemma_uses_below(nodes, funcs, p, n);
    crate::scope::lemma_uses_below(nodes, funcs, q, n);
    crate::scope::lemma_reaches_below(nodes, root, p);
    crate::scope::lemma_reaches_below(nodes, root, q);
    crate::scope::lemma_reaches_unfold(nodes, funcs, root, n);
}

/// Whether every handle names a variable without initializer.
pub open spec fn all_inputs(g: &Graph, params: Seq<Trace>) -> bool {
    forall|k: int| 0 <= k < params.len() ==> is_parameter(g.nodes(), (#[trigger] params[k]).index as int)
}

/// Whether node `n` is among the handles.
pub fn is_listed(list: &Vec<Trace>, n: usize) -> (r: bool)
    ensures
        r == listed(list@, n as int),
{
    let mut k: usize = 0;
    while k < list.len()
        invariant
            k <= list.len(),
            forall|j: int| 0 <= j < k ==> (#[trigger] list@[j]).index != n,
        decreases list.len() - k,
    {
        if list[k].index == n {
            return true;
        }
        k += 1;
    }
    false
}

/// The definition of the function `name` with parameters `params` whose
/// value is `root`. The resources of the program are handed in as
/// `globals`. The function is refused where it names a struct that the
/// registry does not hold, or uses an input that is neither a parameter
/// nor a resource.
pub fn lower_function(
    g: &Graph,
    reg: &Registry,
    name: &str,
    params: &Vec<Trace>,
    globals: &Vec<Trace>,
    root: Trace,
) -> (r: Result<String, Error>)
    requires
        g.wf(),
        g.has(root),
        all_inputs(g, params@),
    ensures
        match r {
            Ok(text) => function_refusal(
                g.nodes(),
                g.funcs(),
                reg@.len(),
                params@,
                globals@,
                root.index as int,
            ) is None && text@ == function_text(
                g.nodes(),
                g.funcs(),
                reg@,
                name@,
                params@,
                root.index as int,
            ),
            Err(e) => function_refusal(
                g.nodes(),
                g.funcs(),
                reg@.len(),
                params@,
                globals@,
                root.index as int,
            ) == Some(e),
        },
{
    let ghost nodes = g.nodes();
    let ghost funcs = g.funcs();
    let ghost r = root.index as int;
    let scope: Scope = analyse(g, root);
    let total: usize = g.len();
    let mut names: Vec<bool> = Vec::new();
    let mut n: usize = 0;
    while n <= root.index
        invariant
            n <= root.index + 1,
            root.index < total,
            g.has(root),
            nodes == g.nodes(),
            r == root.index,
            scope.of(nodes, r),
            names@.len() == n,
            forall|i: int| 0 <= i < n ==> #[trigger] names@[i] == by_name(nodes, r)[i],
        decreases root.index + 1 - n,
    {
        let is_var: bool = match g.node(Trace { index: n }) {
            Expr::Var(_) => true,
            _ => false,
        };
        names.push(is_var || scope.shared[n]);
        n += 1;
    }
    let mut out: String = String::new();
    let ret: Type = g.ty(root);
    if !type_known(reg, ret) {
        return Err(Error::UnregisteredStruct);
    }
    write_type(reg, ret, &mut out);
    out.append(" ");
    out.append(name);
    out.append("(");
    let ghost head = out@;
    let mut k: usize = 0;
    while k < params.len()
        invariant
            k <= params.len(),
            g.wf(),
            nodes == g.nodes(),
            funcs == g.funcs(),
            all_inputs(g, params@),
            out@ == head + params_text(nodes, funcs, reg@, params@, k as nat),
            forall|j: int|
                0 <= j < k ==> node_ty(nodes, funcs, (#[trigger] params@[j]).index as int).within(
                    reg@.len(),
                ),
        decreases params.len() - k,
    {
        let ty: Type = g.ty(params[k]);
        if !type_known(reg, ty) {
            return Err(Error::UnregisteredStruct);
        }
        if k > 0 {
            out.append(", ");
        }
        write_type(reg, ty, &mut out);
        out.append(" ");
        write_name(g, params[k], &mut out);
        k += 1;
    }
    out.append(") {\n");
    let ghost front = out@;
    n = 0;
    while n <= root.index
        invariant
            n <= root.index + 1,
            root.index < total,
            g.wf(),
            g.has(root),
            nodes == g.nodes(),
            funcs == g.funcs(),
            r == root.index,
            scope.of(nodes, r),
            names@ == by_name(nodes, r),
            out@ == front + body_text(nodes, funcs, reg@, r, n as nat),
            forall|i: int|
                0 <= i < n && #[trigger] declared(nodes, r, i) ==> node_ty(nodes, funcs, i).within(
                    reg@.len(),
                ),
        decreases root.index + 1 - n,
    {
        let at = Trace { index: n };
        let bound: bool = scope.reach[n] && match g.node(at) {
            Expr::Var(e) => e.var.init.is_some(),
            _ => scope.shared[n],
        };
        assert(bound == declared(nodes, r, n as int));
        if bound {
            let ty: Type = g.ty(at);
            if !type_known(reg, ty) {
                return Err(Error::UnregisteredStruct);
            }
            out.append("    ");
            write_type(reg, ty, &mut out);
            out.append(" ");
            write_name(g, at, &mut out);
            out.append(" = ");
            match g.node(at) {
                Expr::Var(e) => {
                    match e.var.init {
                        Some(init) => {
                            assert(node_ok(nodes, funcs, n as int));
                            write_operand(g, &names, n, init, &mut out);
                        },
                        None => {},
                    }
                },
                _ => {
                    write_expr(g, &names, at, &mut out);
                },
            }
            out.append(";\n");
        }
        n += 1;
    }
    out.append("    return ");
    write_operand(g, &names, root.index + 1, root, &mut out);
    out.append(";\n}\n");
    n = 0;
    while n <= root.index
        invariant
            n <= root.index + 1,
            root.index < total,
            g.has(root),
            nodes == g.nodes(),
            r == root.index,
            scope.of(nodes, r),
            funcs == g.funcs(),
            types_known(nodes, funcs, reg@.len(), params@, r),
            forall|i: int|
                0 <= i < n && #[trigger] reaches(nodes, r, i) && is_parameter(nodes, i) ==> listed(
                    params@,
                    i,
                ) || listed(globals@, i),
        decreases root.index + 1 - n,
    {
        if scope.reach[n] {
            let is_input: bool = match g.node(Trace { index: n }) {
                Expr::Var(e) => e.var.init.is_none(),
                _ => false,
            };
            if is_input && !is_listed(params, n) && !is_listed(globals, n) {
                return Err(Error::UndeclaredInput);
            }
        }
        n += 1;
    }
    Ok(out)
}

/// Whether the registry holds every struct that the type names.
pub fn type_known(reg: &Registry, ty: Type) -> (r: bool)
    ensures
        r == ty.within(reg@.len()),
{
    match ty {
        Type::Base(crate::lang::BaseType::Struct(id)) => reg.contains(id),
        Type::Array(crate::lang::BaseType::Struct(id), _) => reg.contains(id),
        _ => true,
    }
}

} // verus!
