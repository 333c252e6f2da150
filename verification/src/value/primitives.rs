//! The constructors of graph nodes. Each checks the types of its operands
//! and either adds one node or refuses and leaves the graph as it was.

use vstd::prelude::*;
use crate::dag::{is_parameter, node_ty, Graph};
use crate::error::Error;
use crate::lang::{
    BaseType, BinOp, Expr, ExprBinary, ExprCall, ExprField, ExprLit, ExprTernary, ExprVar, Func,
    FuncBuiltIn, FuncId, FuncUserDefined, Ident, Lit, Trace, Type, Var,
};
use crate::registry::Registry;

verus! {

/// Why `binary` refuses its operands, if it does.
pub open spec fn binary_refusal(g: &Graph, left: Trace, op: BinOp, right: Trace) -> Option<Error> {
    if !g.has(left) || !g.has(right) {
        Some(Error::UnknownNode)
    } else if g.type_of(left) != g.type_of(right) {
        Some(Error::OperandMismatch)
    } else if !op.accepts(g.type_of(left)) {
        Some(Error::OperandType)
    } else {
        None
    }
}

/// Why `ternary` refuses its operands, if it does.
pub open spec fn ternary_refusal(g: &Graph, cond: Trace, true_value: Trace, false_value: Trace) -> Option<
    Error,
> {
    if !g.has(cond) || !g.has(true_value) || !g.has(false_value) {
        Some(Error::UnknownNode)
    } else if g.type_of(cond) != Type::boolean() {
        Some(Error::ConditionNotBool)
    } else if g.type_of(true_value) != g.type_of(false_value) {
        Some(Error::BranchMismatch)
    } else {
        None
    }
}

/// The position of the first field named `member` from position `i` on,
/// or the number of fields if there is none.
pub open spec fn field_position(fields: Seq<(String, Type)>, member: Seq<char>, i: int) -> int
    decreases fields.len() - i,
{
    if i < 0 || i >= fields.len() {
        fields.len() as int
    } else if fields[i].0@ == member {
        i
    } else {
        field_position(fields, member, i + 1)
    }
}

/// Why `field` refuses the access, if it does.
pub open spec fn field_refusal(
    g: &Graph,
    reg: &Registry,
    base: Trace,
    member: Seq<char>,
    result_ty: Type,
) -> Option<Error> {
    if !g.has(base) {
        Some(Error::UnknownNode)
    } else {
        match g.type_of(base) {
            Type::Base(BaseType::Struct(id)) => {
                if id.index >= reg@.len() {
                    Some(Error::UnregisteredStruct)
                } else {
                    let fields = reg@[id.index as int].ty.fields@;
                    let at = field_position(fields, member, 0);
                    if at >= fields.len() {
                        Some(Error::UnknownField)
                    } else if fields[at].1 != result_ty {
                        Some(Error::FieldTypeMismatch)
                    } else {
                        None
                    }
                }
            },
            _ => Some(Error::NotAStruct),
        }
    }
}

/// Whether every handle of `args` names a node of the graph.
pub open spec fn all_known(g: &Graph, args: Seq<Trace>) -> bool {
    forall|k: int| 0 <= k < args.len() ==> g.has(#[trigger] args[k])
}

/// Whether every handle of `params` names a variable without initializer.
pub open spec fn all_parameters(g: &Graph, params: Seq<Trace>) -> bool {
    forall|k: int| 0 <= k < params.len() ==> is_parameter(g.nodes(), (#[trigger] params[k]).index as int)
}

/// Why `define_func` refuses the function, if it does.
pub open spec fn define_refusal(g: &Graph, params: Seq<Trace>, result: Trace) -> Option<Error> {
    if !g.has(result) || !all_known(g, params) {
        Some(Error::UnknownNode)
    } else if !all_parameters(g, params) {
        Some(Error::NotAParameter)
    } else {
        None
    }
}

/// Whether the arguments have the types of the parameters as far as both
/// go.
pub open spec fn types_agree(g: &Graph, args: Seq<Trace>, params: Seq<Trace>) -> bool {
    forall|k: int|
        0 <= k < args.len() && k < params.len() ==> g.type_of(#[trigger] args[k]) == g.type_of(
            params[k],
        )
}

/// Why `call` refuses the call, if it does.
pub open spec fn call_refusal(g: &Graph, func: FuncId, args: Seq<Trace>) -> Option<Error> {
    if func.index >= g.funcs().len() {
        Some(Error::UnknownFunction)
    } else {
        args_refusal(g, args, g.funcs()[func.index as int].params@)
    }
}

/// Wraps a literal into a node of its type.
pub fn literal(g: &mut Graph, lit: Lit) -> (t: Trace)
    requires
        old(g).wf(),
    ensures
        final(g).appended(old(g), t),
        final(g).nodes()[t.index as int] == Expr::Lit(ExprLit { lit }),
        final(g).type_of(t) == Type::scalar(lit.ty),
{
    g.push(Expr::Lit(ExprLit { lit }))
}

/// A variable without initializer: an input of a stage or a parameter of
/// a function.
pub fn from_ident(g: &mut Graph, ident: Ident, ty: Type) -> (t: Trace)
    requires
        old(g).wf(),
    ensures
        final(g).appended(old(g), t),
        final(g).nodes()[t.index as int] == Expr::Var(ExprVar { var: Var { ident, ty, init: None } }),
        final(g).type_of(t) == ty,
{
    g.push(Expr::Var(ExprVar { var: Var { ident, ty, init: None } }))
}

/// Applies a binary operator. Arithmetic takes two numeric operands of
/// one type and gives that type; equality takes two scalars of one type,
/// conjunction and disjunction two booleans, and all three give a
/// boolean.
pub fn binary(g: &mut Graph, left: Trace, op: BinOp, right: Trace) -> (r: Result<Trace, Error>)
    requires
        old(g).wf(),
    ensures
        final(g).wf(),
        match r {
            Ok(t) => {
                &&& binary_refusal(old(g), left, op, right) is None
                &&& final(g).appended(old(g), t)
                &&& final(g).nodes()[t.index as int] == Expr::Binary(
                    ExprBinary { left, op, right, ty: op.result(old(g).type_of(left)) },
                )
                &&& final(g).type_of(t) == op.result(old(g).type_of(left))
            },
            Err(e) => binary_refusal(old(g), left, op, right) == Some(e) && final(g).same_as(old(g)),
        },
{
    if !g.contains(left) || !g.contains(right) {
        return Err(Error::UnknownNode);
    }
    let operand: Type = g.ty(left);
    if operand != g.ty(right) {
        return Err(Error::OperandMismatch);
    }
    if !op.check(operand) {
        return Err(Error::OperandType);
    }
    let ty: Type = op.result_ty(operand);
    let e = Expr::Binary(ExprBinary { left, op, right, ty });
    proof {
        crate::dag::lemma_types_kept(g.nodes(), g.funcs(), e, left.index as int);
        crate::dag::lemma_types_kept(g.nodes(), g.funcs(), e, right.index as int);
    }
    Ok(g.push(e))
}

/// The conjunction of two booleans.
pub fn and(g: &mut Graph, left: Trace, right: Trace) -> (r: Result<Trace, Error>)
    requires
        old(g).wf(),
    ensures
        final(g).wf(),
        match r {
            Ok(t) => {
                &&& binary_refusal(old(g), left, BinOp::And, right) is None
                &&& final(g).appended(old(g), t)
                &&& final(g).nodes()[t.index as int] == Expr::Binary(
                    ExprBinary { left, op: BinOp::And, right, ty: Type::boolean() },
                )
                &&& final(g).type_of(t) == Type::boolean()
            },
            Err(e) => binary_refusal(old(g), left, BinOp::And, right) == Some(e) && final(g).same_as(old(g)),
        },
{
    binary(g, left, BinOp::And, right)
}

/// The disjunction of two booleans.
pub fn or(g: &mut Graph, left: Trace, right: Trace) -> (r: Result<Trace, Error>)
    requires
        old(g).wf(),
    ensures
        final(g).wf(),
        match r {
            Ok(t) => {
                &&& binary_refusal(old(g), left, BinOp::Or, right) is None
                &&& final(g).appended(old(g), t)
                &&& final(g).nodes()[t.index as int] == Expr::Binary(
                    ExprBinary { left, op: BinOp::Or, right, ty: Type::boolean() },
                )
                &&& final(g).type_of(t) == Type::boolean()
            },
            Err(e) => binary_refusal(old(g), left, BinOp::Or, right) == Some(e) && final(g).same_as(
                old(g),
            ),
        },
{
    binary(g, left, BinOp::Or, right)
}

/// Selects between two values of one type by a boolean condition. The
/// result has the type of the branches.
pub fn ternary(g: &mut Graph, cond: Trace, true_value: Trace, false_value: Trace) -> (r: Result<
    Trace,
    Error,
>)
    requires
        old(g).wf(),
    ensures
        final(g).wf(),
        match r {
            Ok(t) => {
                &&& ternary_refusal(old(g), cond, true_value, false_value) is None
                &&& final(g).appended(old(g), t)
                &&& final(g).nodes()[t.index as int] == Expr::Ternary(
                    ExprTernary { cond, true_expr: true_value, false_expr: false_value },
                )
                &&& final(g).type_of(t) == old(g).type_of(true_value)
            },
            Err(e) => ternary_refusal(old(g), cond, true_value, false_value) == Some(e) && final(g).same_as(old(g)),
        },
{
    if !g.contains(cond) || !g.contains(true_value) || !g.contains(false_value) {
        return Err(Error::UnknownNode);
    }
    if g.ty(cond) != Type::Base(BaseType::Scalar(crate::lang::ScalarType::Bool)) {
        return Err(Error::ConditionNotBool);
    }
    if g.ty(true_value) != g.ty(false_value) {
        return Err(Error::BranchMismatch);
    }
    let e = Expr::Ternary(ExprTernary { cond, true_expr: true_value, false_expr: false_value });
    proof {
        crate::dag::lemma_types_kept(g.nodes(), g.funcs(), e, cond.index as int);
        crate::dag::lemma_types_kept(g.nodes(), g.funcs(), e, true_value.index as int);
        crate::dag::lemma_types_kept(g.nodes(), g.funcs(), e, false_value.index as int);
    }
    Ok(g.push(e))
}

/// Whether `node` is a binding named `name` around `init`.
pub open spec fn is_binding(node: Expr, name: Seq<char>, ty: Type, init: Trace) -> bool {
    node matches Expr::Var(e) && e.var.ident.name@ == name && e.var.ty == ty && e.var.init == Some(
        init,
    )
}

/// Binds a value to a fresh variable of the given name.
pub fn let_(g: &mut Graph, name: &str, init: Trace) -> (r: Result<Trace, Error>)
    requires
        old(g).wf(),
    ensures
        final(g).wf(),
        match r {
            Ok(t) => {
                &&& old(g).has(init)
                &&& final(g).appended(old(g), t)
                &&& is_binding(final(g).nodes()[t.index as int], name@, old(g).type_of(init), init)
                &&& final(g).type_of(t) == old(g).type_of(init)
            },
            Err(e) => e == Error::UnknownNode && !old(g).has(init) && final(g).same_as(old(g)),
        },
{
    if !g.contains(init) {
        return Err(Error::UnknownNode);
    }
    let ty: Type = g.ty(init);
    let ident: Ident = Ident::new(String::from_str(name));
    let e = Expr::Var(ExprVar { var: Var { ident, ty, init: Some(init) } });
    proof {
        crate::dag::lemma_types_kept(g.nodes(), g.funcs(), e, init.index as int);
    }
    Ok(g.push(e))
}

/// Binds a value to a fresh variable named `var`.
pub fn var(g: &mut Graph, init: Trace) -> (r: Result<Trace, Error>)
    requires
        old(g).wf(),
    ensures
        final(g).wf(),
        match r {
            Ok(t) => {
                &&& old(g).has(init)
                &&& final(g).appended(old(g), t)
                &&& is_binding(final(g).nodes()[t.index as int], "var"@, old(g).type_of(init), init)
                &&& final(g).type_of(t) == old(g).type_of(init)
            },
            Err(e) => e == Error::UnknownNode && !old(g).has(init) && final(g).same_as(old(g)),
        },
{
    let_(g, "var", init)
}

/// Whether `node` is the access of field `member` of `base`.
pub open spec fn is_field(node: Expr, base: Trace, member: Seq<char>, ty: Type) -> bool {
    node matches Expr::Field(e) && e.base == base && e.member@ == member && e.ty == ty
}

/// Accesses a field of a struct value. The field must be declared in the
/// struct type of `base`, with the type `result_ty`.
pub fn field(g: &mut Graph, reg: &Registry, base: Trace, member: &str, result_ty: Type) -> (r:
    Result<Trace, Error>)
    requires
        old(g).wf(),
    ensures
        final(g).wf(),
        match r {
            Ok(t) => {
                &&& field_refusal(old(g), reg, base, member@, result_ty) is None
                &&& final(g).appended(old(g), t)
                &&& is_field(final(g).nodes()[t.index as int], base, member@, result_ty)
                &&& final(g).type_of(t) == result_ty
            },
            Err(e) => field_refusal(old(g), reg, base, member@, result_ty) == Some(e) && final(g).same_as(old(g)),
        },
{
    if !g.contains(base) {
        return Err(Error::UnknownNode);
    }
    let id = match g.ty(base) {
        Type::Base(BaseType::Struct(id)) => id,
        _ => {
            return Err(Error::NotAStruct);
        },
    };
    if !reg.contains(id) {
        return Err(Error::UnregisteredStruct);
    }
    let wanted: String = String::from_str(member);
    let fields = &reg.get(id).ty.fields;
    let mut i: usize = 0;
    while i < fields.len() && fields[i].0 != wanted
        invariant
            i <= fields.len(),
            wanted@ == member@,
            field_position(fields@, member@, 0) == field_position(fields@, member@, i as int),
        decreases fields.len() - i,
    {
        i += 1;
    }
    if i >= fields.len() {
        return Err(Error::UnknownField);
    }
    if fields[i].1 != result_ty {
        return Err(Error::FieldTypeMismatch);
    }
    let e = Expr::Field(ExprField { base, member: wanted, ty: result_ty });
    proof {
        crate::dag::lemma_types_kept(g.nodes(), g.funcs(), e, base.index as int);
    }
    Ok(g.push(e))
}

/// Whether `node` calls the built-in function `name` with result type
/// `ty` on `args`.
pub open spec fn is_builtin_call(node: Expr, name: Seq<char>, ty: Type, args: Seq<Trace>) -> bool {
    node matches Expr::Call(e) && e.args@ == args && (e.func matches Func::BuiltIn(f) && f.name@
        == name && f.ty == ty)
}

/// Calls a function of the target language. Its name and the type of its
/// result are taken on trust; its arguments must be nodes of the graph.
pub fn builtin(g: &mut Graph, name: &str, ty: Type, args: Vec<Trace>) -> (r: Result<Trace, Error>)
    requires
        old(g).wf(),
    ensures
        final(g).wf(),
        match r {
            Ok(t) => {
                &&& all_known(old(g), args@)
                &&& final(g).appended(old(g), t)
                &&& is_builtin_call(final(g).nodes()[t.index as int], name@, ty, args@)
                &&& final(g).type_of(t) == ty
            },
            Err(e) => e == Error::UnknownNode && !all_known(old(g), args@) && final(g).same_as(
                old(g),
            ),
        },
{
    if !known(g, &args) {
        return Err(Error::UnknownNode);
    }
    let e = Expr::Call(
        ExprCall { func: Func::BuiltIn(FuncBuiltIn { name: String::from_str(name), ty }), args },
    );
    Ok(g.push(e))
}

/// Calls a built-in function of one argument.
pub fn builtin1(g: &mut Graph, name: &str, ty: Type, x: Trace) -> (r: Result<Trace, Error>)
    requires
        old(g).wf(),
    ensures
        final(g).wf(),
        match r {
            Ok(t) => {
                &&& old(g).has(x)
                &&& final(g).appended(old(g), t)
                &&& is_builtin_call(final(g).nodes()[t.index as int], name@, ty, seq![x])
                &&& final(g).type_of(t) == ty
            },
            Err(e) => e == Error::UnknownNode && !old(g).has(x) && final(g).same_as(old(g)),
        },
{
    let mut args: Vec<Trace> = Vec::new();
    args.push(x);
    proof {
        assert(all_known(old(g), args@) ==> old(g).has(args@[0]));
    }
    builtin(g, name, ty, args)
}

/// Calls a built-in function of three arguments.
pub fn builtin3(g: &mut Graph, name: &str, ty: Type, x: Trace, y: Trace, z: Trace) -> (r: Result<
    Trace,
    Error,
>)
    requires
        old(g).wf(),
    ensures
        final(g).wf(),
        match r {
            Ok(t) => {
                &&& old(g).has(x) && old(g).has(y) && old(g).has(z)
                &&& final(g).appended(old(g), t)
                &&& is_builtin_call(final(g).nodes()[t.index as int], name@, ty, seq![x, y, z])
                &&& final(g).type_of(t) == ty
            },
            Err(e) => e == Error::UnknownNode && !(old(g).has(x) && old(g).has(y) && old(g).has(z))
                && final(g).same_as(old(g)),
        },
{
    let mut args: Vec<Trace> = Vec::new();
    args.push(x);
    args.push(y);
    args.push(z);
    proof {
        assert(args@ =~= seq![x, y, z]);
    }
    builtin(g, name, ty, args)
}

/// Whether every handle names a node of the graph.
pub fn known(g: &Graph, args: &Vec<Trace>) -> (r: bool)
    ensures
        r == all_known(g, args@),
{
    let mut i: usize = 0;
    while i < args.len()
        invariant
            i <= args.len(),
            forall|k: int| 0 <= k < i ==> g.has(#[trigger] args@[k]),
        decreases args.len() - i,
    {
        if !g.contains(args[i]) {
            return false;
        }
        i += 1;
    }
    true
}

/// Whether `f` is the function `name` of these parameters and result.
pub open spec fn is_function(f: FuncUserDefined, name: Seq<char>, params: Seq<Trace>, result: Trace) -> bool {
    f.ident.name@ == name && f.params@ == params && f.result == result
}

/// Defines a function: captures its parameters and the node of its
/// result. The parameters must be variables without initializer.
pub fn define_func(g: &mut Graph, name: &str, params: Vec<Trace>, result: Trace) -> (r: Result<
    FuncId,
    Error,
>)
    requires
        old(g).wf(),
    ensures
        final(g).wf(),
        final(g).nodes() == old(g).nodes(),
        match r {
            Ok(id) => {
                &&& define_refusal(old(g), params@, result) is None
                &&& id.index == old(g).funcs().len()
                &&& final(g).funcs().len() == old(g).funcs().len() + 1
                &&& final(g).grown_from(old(g))
                &&& is_function(final(g).funcs()[id.index as int], name@, params@, result)
                &&& forall|t: Trace| old(g).has(t) ==> #[trigger] final(g).type_of(t) == old(g).type_of(t)
            },
            Err(e) => define_refusal(old(g), params@, result) == Some(e) && final(g).same_as(old(g)),
        },
{
    match check_define(g, &params, result) {
        Some(e) => {
            return Err(e);
        },
        None => {},
    }
    let f = FuncUserDefined { ident: Ident::new(String::from_str(name)), params, result };
    let id = g.push_func(f);
    Ok(id)
}

/// Whether `node` calls the user-defined function `func` on `args`.
pub open spec fn is_call(node: Expr, func: FuncId, args: Seq<Trace>) -> bool {
    node matches Expr::Call(e) && e.args@ == args && e.func == Func::UserDefined(func)
}

/// Calls a user-defined function. The arguments must agree with its
/// parameters in number and type; the result has the type of the
/// function's result.
pub fn call(g: &mut Graph, func: FuncId, args: Vec<Trace>) -> (r: Result<Trace, Error>)
    requires
        old(g).wf(),
    ensures
        final(g).wf(),
        match r {
            Ok(t) => {
                &&& call_refusal(old(g), func, args@) is None
                &&& final(g).appended(old(g), t)
                &&& is_call(final(g).nodes()[t.index as int], func, args@)
                &&& final(g).type_of(t) == old(g).type_of(old(g).funcs()[func.index as int].result)
            },
            Err(e) => call_refusal(old(g), func, args@) == Some(e) && final(g).same_as(old(g)),
        },
{
    if func.index >= g.func_count() {
        return Err(Error::UnknownFunction);
    }
    proof {
        assert(crate::dag::func_ok(g.nodes(), g.funcs(), func.index as int));
    }
    match check_args(g, &args, &g.func(func).params) {
        Some(e) => {
            return Err(e);
        },
        None => {},
    }
    let ghost params = g.funcs()[func.index as int].params@;
    let ghost result = g.funcs()[func.index as int].result;
    let e = Expr::Call(ExprCall { func: Func::UserDefined(func), args });
    proof {
        let more = g.nodes().push(e);
        let n = g.nodes().len() as int;
        assert forall|k: int| 0 <= k < args@.len() implies node_ty(
            more,
            g.funcs(),
            (#[trigger] args@[k]).index as int,
        ) == node_ty(more, g.funcs(), params[k].index as int) by {
            crate::dag::lemma_types_kept(g.nodes(), g.funcs(), e, args@[k].index as int);
            crate::dag::lemma_types_kept(g.nodes(), g.funcs(), e, params[k].index as int);
        }
        assert forall|f: int| 0 <= f <= func.index implies (#[trigger] g.funcs()[f]).result.index
            < n by {
            assert(crate::dag::func_ok(g.nodes(), g.funcs(), f));
        }
        crate::dag::lemma_types_kept(g.nodes(), g.funcs(), e, result.index as int);
    }
    Ok(g.push(e))
}

/// Why the arguments do not fit the parameters, if they do not.
pub open spec fn args_refusal(g: &Graph, args: Seq<Trace>, params: Seq<Trace>) -> Option<Error> {
    if !all_known(g, args) {
        Some(Error::UnknownNode)
    } else if args.len() != params.len() {
        Some(Error::ArgumentCount)
    } else if !types_agree(g, args, params) {
        Some(Error::ArgumentType)
    } else {
        None
    }
}

/// Why `func_call` refuses, if it does: what `define_func` refuses of the
/// function, and then what `call` refuses of the arguments.
pub open spec fn func_call_refusal(g: &Graph, params: Seq<Trace>, result: Trace, args: Seq<Trace>) -> Option<
    Error,
> {
    match define_refusal(g, params, result) {
        Some(e) => Some(e),
        None => args_refusal(g, args, params),
    }
}

/// Checks arguments against parameters.
fn check_args(g: &Graph, args: &Vec<Trace>, params: &Vec<Trace>) -> (r: Option<Error>)
    requires
        g.wf(),
        all_known(g, params@),
    ensures
        r == args_refusal(g, args@, params@),
{
    if !known(g, args) {
        return Some(Error::UnknownNode);
    }
    if args.len() != params.len() {
        return Some(Error::ArgumentCount);
    }
    let mut i: usize = 0;
    while i < args.len()
        invariant
            i <= args.len(),
            g.wf(),
            args@.len() == params@.len(),
            all_known(g, args@),
            all_known(g, params@),
            forall|k: int| 0 <= k < i ==> g.type_of(#[trigger] args@[k]) == g.type_of(params@[k]),
        decreases args.len() - i,
    {
        if g.ty(args[i]) != g.ty(params[i]) {
            return Some(Error::ArgumentType);
        }
        i += 1;
    }
    None
}

/// Checks the parameters and the result of a function.
#[verifier::loop_isolation(false)]
fn check_define(g: &Graph, params: &Vec<Trace>, result: Trace) -> (r: Option<Error>)
    ensures
        r == define_refusal(g, params@, result),
{
    if !g.contains(result) || !known(g, params) {
        return Some(Error::UnknownNode);
    }
    let mut i: usize = 0;
    while i < params.len()
        invariant
            i <= params.len(),
            all_known(g, params@),
            forall|k: int| 0 <= k < i ==> is_parameter(g.nodes(), (#[trigger] params@[k]).index as int),
        decreases params.len() - i,
    {
        let ok: bool = match g.node(params[i]) {
            Expr::Var(e) => e.var.init.is_none(),
            _ => false,
        };
        if !ok {
            return Some(Error::NotAParameter);
        }
        i += 1;
    }
    None
}

/// Defines a function and calls it at once. Either both happen or the
/// graph stays as it was.
pub fn func_call(g: &mut Graph, name: &str, params: Vec<Trace>, result: Trace, args: Vec<Trace>) -> (r:
    Result<Trace, Error>)
    requires
        old(g).wf(),
    ensures
        final(g).wf(),
        match r {
            Ok(t) => {
                &&& func_call_refusal(old(g), params@, result, args@) is None
                &&& final(g).nodes() == old(g).nodes().push(final(g).nodes()[t.index as int])
                &&& final(g).funcs() == old(g).funcs().push(
                    final(g).funcs()[old(g).funcs().len() as int],
                )
                &&& t.index == old(g).nodes().len()
                &&& is_function(
                    final(g).funcs()[old(g).funcs().len() as int],
                    name@,
                    params@,
                    result,
                )
                &&& is_call(
                    final(g).nodes()[t.index as int],
                    FuncId { index: old(g).funcs().len() as usize },
                    args@,
                )
                &&& final(g).type_of(t) == old(g).type_of(result)
            },
            Err(e) => func_call_refusal(old(g), params@, result, args@) == Some(e) && final(g).same_as(old(g)),
        },
{
    match check_define(g, &params, result) {
        Some(e) => {
            return Err(e);
        },
        None => {},
    }
    match check_args(g, &args, &params) {
        Some(e) => {
            return Err(e);
        },
        None => {},
    }
    let id = match define_func(g, name, params, result) {
        Ok(id) => id,
        Err(e) => {
            return Err(e);
        },
    };
    call(g, id, args)
}

} // verus!
