//! The text of the target language: how types, names and expressions are
//! written.

use vstd::prelude::*;
use crate::dag::{node_ok, Graph};
use crate::lang::{
    simple_text, BaseType, BinOp, Expr, Func, FuncUserDefined, Ident, ScalarType, StructId, Trace,
    Type,
};
use crate::registry::{Entry, Registry};
use crate::text::{
    decimal_text, law_decimal_is_injective, lemma_decimal_has_no_underscore, lemma_hex_prefix,
    lemma_hex_text_len, lemma_hex_value, pow16, push_decimal,
};

verus! {

/// The name of a scalar type.
pub open spec fn scalar_text(s: ScalarType) -> Seq<char> {
    match s {
        ScalarType::Bool => "bool"@,
        ScalarType::I32 => "int"@,
        ScalarType::U32 => "uint"@,
        ScalarType::F32 => "float"@,
    }
}

/// What the name of a vector or sampler begins with for its components.
pub open spec fn component_prefix(s: ScalarType) -> Seq<char> {
    match s {
        ScalarType::Bool => "b"@,
        ScalarType::I32 => "i"@,
        ScalarType::U32 => "u"@,
        ScalarType::F32 => ""@,
    }
}

/// The name under which a struct is declared: its own name, an
/// underscore and its handle, so that two structs of one name do not
/// clash.
pub open spec fn struct_text(reg: Seq<Entry>, id: StructId) -> Seq<char> {
    if id.index < reg.len() {
        reg[id.index as int].ty.name@ + "_"@ + decimal_text(id.index as nat)
    } else {
        Seq::empty()
    }
}

/// The name of a base type.
pub open spec fn base_text(reg: Seq<Entry>, b: BaseType) -> Seq<char> {
    match b {
        BaseType::Scalar(s) => scalar_text(s),
        BaseType::Vec2(s) => component_prefix(s) + "vec2"@,
        BaseType::Vec3(s) => component_prefix(s) + "vec3"@,
        BaseType::Vec4(s) => component_prefix(s) + "vec4"@,
        BaseType::Struct(id) => struct_text(reg, id),
        BaseType::Sampler2d(s) => component_prefix(s) + "sampler2D"@,
    }
}

/// The name of a type.
pub open spec fn type_text(reg: Seq<Entry>, ty: Type) -> Seq<char> {
    match ty {
        Type::Base(b) => base_text(reg, b),
        Type::Array(b, len) => base_text(reg, b) + "["@ + decimal_text(len as nat) + "]"@,
    }
}

/// The sign of an operator.
pub open spec fn op_text(op: BinOp) -> Seq<char> {
    match op {
        BinOp::Add => "+"@,
        BinOp::Sub => "-"@,
        BinOp::Mul => "*"@,
        BinOp::Div => "/"@,
        BinOp::Eq => "=="@,
        BinOp::And => "&&"@,
        BinOp::Or => "||"@,
    }
}

/// What follows the text of a literal of the given type where it is
/// written: an unsigned number is marked as such.
pub open spec fn literal_suffix(ty: ScalarType) -> Seq<char> {
    match ty {
        ScalarType::U32 => "u"@,
        _ => ""@,
    }
}

/// The name by which a node is referred to where it is bound to one: the
/// identifier of a variable, and a name made of the node's position for
/// any other node. A name of the second kind holds no underscore, so it
/// is the name of no variable.
pub open spec fn node_name(nodes: Seq<Expr>, n: int) -> Seq<char> {
    match nodes[n] {
        Expr::Var(e) => e.var.ident.text(),
        _ => "tmp"@ + decimal_text(n as nat),
    }
}

/// The name of a function.
pub open spec fn func_text(funcs: Seq<FuncUserDefined>, func: Func) -> Seq<char> {
    match func {
        Func::BuiltIn(f) => f.name@,
        Func::UserDefined(id) => if id.index < funcs.len() {
            funcs[id.index as int].ident.text()
        } else {
            Seq::empty()
        },
    }
}

/// How operand `c` of node `n` is written: by its name if it is bound to
/// one, in full otherwise.
pub open spec fn operand_text(
    nodes: Seq<Expr>,
    funcs: Seq<FuncUserDefined>,
    by_name: Seq<bool>,
    n: int,
    c: int,
) -> Seq<char>
    decreases n, 0nat, 0nat,
{
    if 0 <= c < n && c < by_name.len() {
        if by_name[c] {
            node_name(nodes, c)
        } else {
            expr_text(nodes, funcs, by_name, c)
        }
    } else {
        Seq::empty()
    }
}

/// How the first `k` arguments of call `n` are written.
pub open spec fn args_text(
    nodes: Seq<Expr>,
    funcs: Seq<FuncUserDefined>,
    by_name: Seq<bool>,
    n: int,
    args: Seq<Trace>,
    k: nat,
) -> Seq<char>
    decreases n, 1nat, k,
{
    if k == 0 || k > args.len() {
        Seq::empty()
    } else {
        args_text(nodes, funcs, by_name, n, args, (k - 1) as nat) + (if k > 1 {
            ", "@
        } else {
            Seq::empty()
        }) + operand_text(nodes, funcs, by_name, n, args[k - 1].index as int)
    }
}

/// How node `n` is written in full.
pub open spec fn expr_text(
    nodes: Seq<Expr>,
    funcs: Seq<FuncUserDefined>,
    by_name: Seq<bool>,
    n: int,
) -> Seq<char>
    decreases n, 2nat, 0nat,
{
    if n < 0 || n >= nodes.len() {
        Seq::empty()
    } else {
        match nodes[n] {
            Expr::Lit(e) => e.lit.value@ + literal_suffix(e.lit.ty),
            Expr::Var(e) => e.var.ident.text(),
            Expr::Field(e) => operand_text(nodes, funcs, by_name, n, e.base.index as int) + "."@
                + e.member@,
            Expr::Binary(e) => "("@ + operand_text(nodes, funcs, by_name, n, e.left.index as int)
                + " "@ + op_text(e.op) + " "@ + operand_text(
                nodes,
                funcs,
                by_name,
                n,
                e.right.index as int,
            ) + ")"@,
            Expr::Ternary(e) => "("@ + operand_text(nodes, funcs, by_name, n, e.cond.index as int)
                + " ? "@ + operand_text(nodes, funcs, by_name, n, e.true_expr.index as int)
                + " : "@ + operand_text(nodes, funcs, by_name, n, e.false_expr.index as int)
                + ")"@,
            Expr::Call(e) => func_text(funcs, e.func) + "("@ + args_text(
                nodes,
                funcs,
                by_name,
                n,
                e.args@,
                e.args@.len(),
            ) + ")"@,
        }
    }
}

/// The name of a scalar type.
pub fn scalar_str(s: ScalarType) -> (r: &'static str)
    ensures
        r@ == scalar_text(s),
{
    match s {
        ScalarType::Bool => "bool",
        ScalarType::I32 => "int",
        ScalarType::U32 => "uint",
        ScalarType::F32 => "float",
    }
}

/// What the name of a vector or sampler begins with for its components.
pub fn component_str(s: ScalarType) -> (r: &'static str)
    ensures
        r@ == component_prefix(s),
{
    match s {
        ScalarType::Bool => "b",
        ScalarType::I32 => "i",
        ScalarType::U32 => "u",
        ScalarType::F32 => "",
    }
}

/// What follows the text of a literal of the given type.
pub fn suffix_str(ty: ScalarType) -> (r: &'static str)
    ensures
        r@ == literal_suffix(ty),
{
    match ty {
        ScalarType::U32 => "u",
        _ => "",
    }
}

/// The sign of an operator.
pub fn op_str(op: BinOp) -> (r: &'static str)
    ensures
        r@ == op_text(op),
{
    match op {
        BinOp::Add => "+",
        BinOp::Sub => "-",
        BinOp::Mul => "*",
        BinOp::Div => "/",
        BinOp::Eq => "==",
        BinOp::And => "&&",
        BinOp::Or => "||",
    }
}

/// Appends the name under which a registered struct is declared.
pub fn write_struct_name(reg: &Registry, id: StructId, out: &mut String)
    requires
        id.index < reg@.len(),
    ensures
        final(out)@ == old(out)@ + struct_text(reg@, id),
{
    out.append(reg.get(id).ty.name.as_str());
    out.append("_");
    push_decimal(out, id.index as u64);
}

/// The name under which a registered struct is declared.
pub fn struct_name(reg: &Registry, id: StructId) -> (r: String)
    requires
        id.index < reg@.len(),
    ensures
        r@ == struct_text(reg@, id),
{
    let mut r: String = String::new();
    write_struct_name(reg, id, &mut r);
    r
}

/// Appends the name of a base type whose struct, if it names one, is
/// registered.
pub fn write_base(reg: &Registry, b: BaseType, out: &mut String)
    requires
        b.within(reg@.len()),
    ensures
        final(out)@ == old(out)@ + base_text(reg@, b),
{
    match b {
        BaseType::Scalar(s) => {
            out.append(scalar_str(s));
        },
        BaseType::Vec2(s) => {
            out.append(component_str(s));
            out.append("vec2");
        },
        BaseType::Vec3(s) => {
            out.append(component_str(s));
            out.append("vec3");
        },
        BaseType::Vec4(s) => {
            out.append(component_str(s));
            out.append("vec4");
        },
        BaseType::Struct(id) => {
            write_struct_name(reg, id, out);
        },
        BaseType::Sampler2d(s) => {
            out.append(component_str(s));
            out.append("sampler2D");
        },
    }
}

/// Appends the name of a type whose struct, if it names one, is
/// registered.
pub fn write_type(reg: &Registry, ty: Type, out: &mut String)
    requires
        ty.within(reg@.len()),
    ensures
        final(out)@ == old(out)@ + type_text(reg@, ty),
{
    match ty {
        Type::Base(b) => {
            write_base(reg, b, out);
        },
        Type::Array(b, len) => {
            write_base(reg, b, out);
            out.append("[");
            push_decimal(out, len as u64);
            out.append("]");
        },
    }
}

/// Appends the name by which a node is referred to.
pub fn write_name(g: &Graph, n: Trace, out: &mut String)
    requires
        g.has(n),
    ensures
        final(out)@ == old(out)@ + node_name(g.nodes(), n.index as int),
{
    match g.node(n) {
        Expr::Var(e) => {
            e.var.ident.write(out);
        },
        _ => {
            out.append("tmp");
            push_decimal(out, n.index as u64);
        },
    }
}

/// Appends operand `c` of node `n`.
pub fn write_operand(g: &Graph, by_name: &Vec<bool>, n: usize, c: Trace, out: &mut String)
    requires
        g.wf(),
        c.index < n <= g.nodes().len(),
        c.index < by_name@.len(),
    ensures
        final(out)@ == old(out)@ + operand_text(
            g.nodes(),
            g.funcs(),
            by_name@,
            n as int,
            c.index as int,
        ),
    decreases n, 0nat, 0nat,
{
    if by_name[c.index] {
        write_name(g, c, out);
    } else {
        write_expr(g, by_name, c, out);
    }
}

/// Appends node `n` in full.
pub fn write_expr(g: &Graph, by_name: &Vec<bool>, n: Trace, out: &mut String)
    requires
        g.wf(),
        g.has(n),
        n.index < by_name@.len(),
    ensures
        final(out)@ == old(out)@ + expr_text(g.nodes(), g.funcs(), by_name@, n.index as int),
    decreases n.index, 2nat, 0nat,
{
    let ghost nodes = g.nodes();
    let ghost funcs = g.funcs();
    let ghost i = n.index as int;
    proof {
        assert(node_ok(nodes, funcs, i));
    }
    match g.node(n) {
        Expr::Lit(e) => {
            out.append(e.lit.value.as_str());
            out.append(suffix_str(e.lit.ty));
        },
        Expr::Var(e) => {
            e.var.ident.write(out);
        },
        Expr::Field(e) => {
            write_operand(g, by_name, n.index, e.base, out);
            out.append(".");
            out.append(e.member.as_str());
        },
        Expr::Binary(e) => {
            out.append("(");
            write_operand(g, by_name, n.index, e.left, out);
            out.append(" ");
            out.append(op_str(e.op));
            out.append(" ");
            write_operand(g, by_name, n.index, e.right, out);
            out.append(")");
        },
        Expr::Ternary(e) => {
            out.append("(");
            write_operand(g, by_name, n.index, e.cond, out);
            out.append(" ? ");
            write_operand(g, by_name, n.index, e.true_expr, out);
            out.append(" : ");
            write_operand(g, by_name, n.index, e.false_expr, out);
            out.append(")");
        },
        Expr::Call(e) => {
            match &e.func {
                Func::BuiltIn(f) => {
                    out.append(f.name.as_str());
                },
                Func::UserDefined(id) => {
                    g.func(*id).ident.write(out);
                },
            }
            out.append("(");
            let ghost head = out@;
            let mut k: usize = 0;
            while k < e.args.len()
                invariant
                    k <= e.args.len(),
                    g.wf(),
                    g.has(n),
                    nodes == g.nodes(),
                    funcs == g.funcs(),
                    i == n.index,
                    n.index < by_name@.len(),
                    crate::dag::all_before(e.args@, i),
                    out@ == head + args_text(nodes, funcs, by_name@, i, e.args@, k as nat),
                decreases e.args.len() - k,
            {
                if k > 0 {
                    out.append(", ");
                }
                write_operand(g, by_name, n.index, e.args[k], out);
                k += 1;
            }
            out.append(")");
        },
    }
}

/// Two identifiers are rendered as the same text only if they have the
/// same name and the same first eight digits of the token.
pub proof fn law_idents_render_apart(a: Ident, b: Ident)
    requires
        a.text() == b.text(),
    ensures
        a.name@ == b.name@,
        simple_text(a.token).subrange(0, 8) == simple_text(b.token).subrange(0, 8),
{
    lemma_hex_text_len(a.token as nat, 32);
    lemma_hex_text_len(b.token as nat, 32);
    let text = b.text();
    let hash = simple_text(b.token).subrange(0, 8);
    assert(b.name@ =~= text.subrange(0, b.name@.len() as int));
    assert(hash =~= text.subrange(b.name@.len() as int + 1, text.len() as int));
}

/// The name that is made for a node that is no variable is the name of
/// no variable, whatever the identifier of the variable.
pub proof fn law_made_name_is_no_ident(nodes: Seq<Expr>, n: int, ident: Ident)
    requires
        0 <= n < nodes.len(),
        !(nodes[n] is Var),
    ensures
        node_name(nodes, n) != ident.text(),
{
    reveal_strlit("tmp");
    lemma_hex_text_len(ident.token as nat, 32);
    let made = node_name(nodes, n);
    let text = ident.text();
    let at = ident.name@.len() as int;
    if made == text {
        assert(made.len() == at + 9);
        if at >= 3 {
            lemma_decimal_has_no_underscore(n as nat, at - 3);
            assert(made[at] == decimal_text(n as nat)[at - 3]);
        } else {
            assert(made[at] == "tmp"@[at]);
        }
    }
}

/// Two nodes that are no variables get two names.
pub proof fn law_made_names_differ(nodes: Seq<Expr>, m: int, n: int)
    requires
        0 <= m < nodes.len(),
        0 <= n < nodes.len(),
        !(nodes[m] is Var),
        !(nodes[n] is Var),
        node_name(nodes, m) == node_name(nodes, n),
    ensures
        m == n,
{
    reveal_strlit("tmp");
    let a = node_name(nodes, m);
    let b = node_name(nodes, n);
    assert(decimal_text(m as nat) =~= a.subrange(3, a.len() as int));
    assert(decimal_text(n as nat) =~= b.subrange(3, b.len() as int));
    law_decimal_is_injective(m as nat, n as nat);
}

/// Two tokens have the same first eight digits exactly if their highest
/// 32 bits are the same.
pub proof fn law_short_hash_is_high_bits(a: u128, b: u128)
    ensures
        (simple_text(a).subrange(0, 8) == simple_text(b).subrange(0, 8)) <==> (a >> 96) == (b >> 96),
{
    reveal_with_fuel(pow16, 25);
    let p = pow16(24);
    assert(pow16(8) == 0x1_0000_0000);
    lemma_hex_prefix(a as nat, 32, 8);
    lemma_hex_prefix(b as nat, 32, 8);
    lemma_hex_value(a as nat / p, 8);
    lemma_hex_value(b as nat / p, 8);
    assert((a >> 96) == a / 0x1_0000_0000_0000_0000_0000_0000) by (bit_vector);
    assert((b >> 96) == b / 0x1_0000_0000_0000_0000_0000_0000) by (bit_vector);
    assert((a >> 96) < 0x1_0000_0000) by (bit_vector);
    assert((b >> 96) < 0x1_0000_0000) by (bit_vector);
}

} // verus!
