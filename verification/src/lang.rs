//! The language of the expression graph: types, identifiers, literals,
//! operators and the nodes themselves.

use vstd::prelude::*;
use crate::text::{decimal_text, hex_text, lemma_hex_text_len, push_decimal};

verus! {

/// The type of a single component.
#[derive(Debug, Clone, Copy, PartialEq, Eq, Structural, Hash)]
pub enum ScalarType {
    Bool,
    I32,
    U32,
    F32,
}

impl ScalarType {
    /// Whether arithmetic is defined on the type.
    pub open spec fn numeric(self) -> bool {
        self != ScalarType::Bool
    }

    /// Whether arithmetic is defined on the type.
    pub fn is_numeric(self) -> (r: bool)
        ensures
            r == self.numeric(),
    {
        match self {
            ScalarType::Bool => false,
            _ => true,
        }
    }
}

/// Handle of a struct type: its position in the registry that interned it.
/// Two handles of one registry are equal exactly if they come from the same
/// declaration, whatever the shape of the structs.
#[derive(Debug, Clone, Copy, PartialEq, Eq, Structural, Hash)]
pub struct StructId {
    pub index: usize,
}

/// A type that is not an array.
#[derive(Debug, Clone, Copy, PartialEq, Eq, Structural, Hash)]
pub enum BaseType {
    Scalar(ScalarType),
    Vec2(ScalarType),
    Vec3(ScalarType),
    Vec4(ScalarType),
    Struct(StructId),
    Sampler2d(ScalarType),
}

/// The type of a value in the graph. Arrays hold base types only, so there
/// are no arrays of arrays.
#[derive(Debug, Clone, Copy, PartialEq, Eq, Structural, Hash)]
pub enum Type {
    Base(BaseType),
    Array(BaseType, usize),
}

impl BaseType {
    /// Whether the type is a scalar or a vector.
    pub open spec fn primitive(self) -> bool {
        self is Scalar || self is Vec2 || self is Vec3 || self is Vec4
    }

    /// The component type of a scalar, vector or sampler.
    pub open spec fn component(self) -> Option<ScalarType> {
        match self {
            BaseType::Scalar(s) => Some(s),
            BaseType::Vec2(s) => Some(s),
            BaseType::Vec3(s) => Some(s),
            BaseType::Vec4(s) => Some(s),
            BaseType::Sampler2d(s) => Some(s),
            BaseType::Struct(_) => None,
        }
    }

    /// Whether every struct the type names is among the first `n` of a
    /// registry.
    pub open spec fn within(self, n: nat) -> bool {
        match self {
            BaseType::Struct(id) => id.index < n,
            _ => true,
        }
    }
}

impl Type {
    /// The type of a scalar.
    pub open spec fn scalar(s: ScalarType) -> Type {
        Type::Base(BaseType::Scalar(s))
    }

    /// The type of a boolean.
    pub open spec fn boolean() -> Type {
        Type::scalar(ScalarType::Bool)
    }

    /// Whether arithmetic is defined on the type: a scalar or vector of
    /// numeric components.
    pub open spec fn numeric(self) -> bool {
        match self {
            Type::Base(b) => b.primitive() && b.component() != Some(ScalarType::Bool),
            Type::Array(_, _) => false,
        }
    }

    /// Whether the type is a scalar.
    pub open spec fn is_scalar(self) -> bool {
        self matches Type::Base(BaseType::Scalar(_))
    }

    /// Whether the type is a struct.
    pub open spec fn is_struct(self) -> bool {
        self matches Type::Base(BaseType::Struct(_))
    }

    /// Whether every struct the type names is among the first `n` of a
    /// registry.
    pub open spec fn within(self, n: nat) -> bool {
        match self {
            Type::Base(b) => b.within(n),
            Type::Array(b, _) => b.within(n),
        }
    }

    /// Whether arithmetic is defined on the type.
    pub fn is_numeric(self) -> (r: bool)
        ensures
            r == self.numeric(),
    {
        match self {
            Type::Base(BaseType::Scalar(s)) => s.is_numeric(),
            Type::Base(BaseType::Vec2(s)) => s.is_numeric(),
            Type::Base(BaseType::Vec3(s)) => s.is_numeric(),
            Type::Base(BaseType::Vec4(s)) => s.is_numeric(),
            _ => false,
        }
    }
}

/// The operators of a binary node.
#[derive(Debug, Clone, Copy, PartialEq, Eq, Structural, Hash)]
pub enum BinOp {
    Add,
    Sub,
    Mul,
    Div,
    Eq,
    And,
    Or,
}

impl BinOp {
    /// Whether operands of type `operand` on both sides are accepted.
    pub open spec fn accepts(self, operand: Type) -> bool {
        match self {
            BinOp::Add | BinOp::Sub | BinOp::Mul | BinOp::Div => operand.numeric(),
            BinOp::Eq => operand.is_scalar(),
            BinOp::And | BinOp::Or => operand == Type::boolean(),
        }
    }

    /// The type of the result on operands of type `operand`.
    pub open spec fn result(self, operand: Type) -> Type {
        match self {
            BinOp::Add | BinOp::Sub | BinOp::Mul | BinOp::Div => operand,
            BinOp::Eq | BinOp::And | BinOp::Or => Type::boolean(),
        }
    }

    /// Whether operands of type `operand` on both sides are accepted.
    pub fn check(self, operand: Type) -> (r: bool)
        ensures
            r == self.accepts(operand),
    {
        match self {
            BinOp::Add | BinOp::Sub | BinOp::Mul | BinOp::Div => operand.is_numeric(),
            BinOp::Eq => match operand {
                Type::Base(BaseType::Scalar(_)) => true,
                _ => false,
            },
            BinOp::And | BinOp::Or => operand == Type::Base(BaseType::Scalar(ScalarType::Bool)),
        }
    }

    /// The type of the result on operands of type `operand`.
    pub fn result_ty(self, operand: Type) -> (r: Type)
        ensures
            r == self.result(operand),
    {
        match self {
            BinOp::Add | BinOp::Sub | BinOp::Mul | BinOp::Div => operand,
            _ => Type::Base(BaseType::Scalar(ScalarType::Bool)),
        }
    }
}

/// What the formatter of the identifier crate prints for a 128-bit value
/// in its simple form.
pub open spec fn simple_text(token: u128) -> Seq<char> {
    hex_text(token as nat, 32)
}

/// Draws a random version-4 identifier, `uuid::Uuid::new_v4`, and gives its
/// 128 bits. Nothing is claimed of the value: it is random. The call needs
/// the random source of the operating system and stops the process if that
/// source fails.
#[verifier::external_body]
fn random_token() -> (token: u128) {
    uuid::Uuid::new_v4().as_u128()
}

/// Formats a 128-bit value as `uuid::Uuid::from_u128(..).simple()` prints
/// it: the 32 lower-case hexadecimal digits of the value, most significant
/// digit first.
#[verifier::external_body]
fn simple_string(token: u128) -> (r: String)
    ensures
        r@ == simple_text(token),
{
    uuid::Uuid::from_u128(token).simple().to_string()
}

/// A readable name together with a token that tells apart identifiers of
/// the same name.
#[derive(Debug, Clone, PartialEq, Eq, Hash)]
pub struct Ident {
    pub name: String,
    pub token: u128,
}

impl Ident {
    /// The text an identifier is rendered as: the name, an underscore and
    /// the first eight digits of the token's simple form.
    pub open spec fn text(self) -> Seq<char> {
        self.name@ + seq!['_'] + simple_text(self.token).subrange(0, 8)
    }

    /// An identifier with a fresh random token.
    pub fn new(name: String) -> (r: Ident)
        ensures
            r.name@ == name@,
    {
        Ident { name, token: random_token() }
    }

    /// An identifier with a token of the caller's choice.
    pub fn with_token(name: String, token: u128) -> (r: Ident)
        ensures
            r.name@ == name@,
            r.token == token,
    {
        Ident { name, token }
    }

    /// A copy of the identifier.
    pub fn duplicate(&self) -> (r: Ident)
        ensures
            r.name@ == self.name@,
            r.token == self.token,
    {
        Ident { name: self.name.clone(), token: self.token }
    }

    /// Appends the rendered identifier to `out`.
    pub fn write(&self, out: &mut String)
        ensures
            final(out)@ == old(out)@ + self.text(),
    {
        proof {
            reveal_strlit("_");
            lemma_hex_text_len(self.token as nat, 32);
        }
        let hex: String = simple_string(self.token);
        out.append(self.name.as_str());
        out.append("_");
        out.append(hex.as_str().substring_char(0, 8));
    }

    /// The rendered identifier.
    pub fn to_string(&self) -> (r: String)
        ensures
            r@ == self.text(),
    {
        let mut r: String = String::new();
        self.write(&mut r);
        r
    }
}

/// A literal: the text of its value and its type. The text of a number
/// is its decimal numeral; a marker of the type that the target language
/// asks for is added where the literal is written.
#[derive(Debug, Clone, PartialEq, Eq, Hash)]
pub struct Lit {
    pub value: String,
    pub ty: ScalarType,
}

/// The text of a boolean literal.
pub open spec fn bool_text(x: bool) -> Seq<char> {
    if x {
        "true"@
    } else {
        "false"@
    }
}

/// The text of an unsigned literal: its decimal numeral.
pub open spec fn u32_text(x: u32) -> Seq<char> {
    decimal_text(x as nat)
}

/// The text of a signed literal.
pub open spec fn i32_text(x: i32) -> Seq<char> {
    if x < 0 {
        "-"@ + decimal_text((-x) as nat)
    } else {
        decimal_text(x as nat)
    }
}

impl Lit {
    /// The literal of a boolean.
    pub fn from_bool(x: bool) -> (r: Lit)
        ensures
            r.value@ == bool_text(x),
            r.ty == ScalarType::Bool,
    {
        let value: String = if x {
            String::from_str("true")
        } else {
            String::from_str("false")
        };
        Lit { value, ty: ScalarType::Bool }
    }

    /// The literal of an unsigned number.
    pub fn from_u32(x: u32) -> (r: Lit)
        ensures
            r.value@ == u32_text(x),
            r.ty == ScalarType::U32,
    {
        let mut value: String = String::new();
        push_decimal(&mut value, x as u64);
        Lit { value, ty: ScalarType::U32 }
    }

    /// The literal of a signed number.
    pub fn from_i32(x: i32) -> (r: Lit)
        ensures
            r.value@ == i32_text(x),
            r.ty == ScalarType::I32,
    {
        let mut value: String = String::new();
        if x < 0 {
            value.append("-");
            push_decimal(&mut value, (-(x as i64)) as u64);
        } else {
            push_decimal(&mut value, x as u64);
        }
        Lit { value, ty: ScalarType::I32 }
    }

    /// A copy of the literal.
    pub fn duplicate(&self) -> (r: Lit)
        ensures
            r.value@ == self.value@,
            r.ty == self.ty,
    {
        Lit { value: self.value.clone(), ty: self.ty }
    }
}

/// Handle of a node of an expression graph: its position in the graph.
/// Two handles of one graph are the same node exactly if they are equal.
#[derive(Debug, Clone, Copy, PartialEq, Eq, Structural, Hash)]
pub struct Trace {
    pub index: usize,
}

/// Handle of a user-defined function of an expression graph.
#[derive(Debug, Clone, Copy, PartialEq, Eq, Structural, Hash)]
pub struct FuncId {
    pub index: usize,
}

/// A named binding. Without initializer it stands for an input of a stage
/// or a parameter of a function.
#[derive(Debug, Clone, PartialEq, Eq, Hash)]
pub struct Var {
    pub ident: Ident,
    pub ty: Type,
    pub init: Option<Trace>,
}

/// A function of the target language, known by its name and the type of
/// its result.
#[derive(Debug, Clone, PartialEq, Eq, Hash)]
pub struct FuncBuiltIn {
    pub name: String,
    pub ty: Type,
}

/// A function defined in the graph: its parameters and the node that
/// computes its result, captured once for all call sites.
#[derive(Debug, Clone, PartialEq, Eq, Hash)]
pub struct FuncUserDefined {
    pub ident: Ident,
    pub params: Vec<Trace>,
    pub result: Trace,
}

/// What a call node calls.
#[derive(Debug, Clone, PartialEq, Eq, Hash)]
pub enum Func {
    BuiltIn(FuncBuiltIn),
    UserDefined(FuncId),
}

/// An operator applied to two operands; `ty` is the type of the result.
#[derive(Debug, Clone, PartialEq, Eq, Hash)]
pub struct ExprBinary {
    pub left: Trace,
    pub op: BinOp,
    pub right: Trace,
    pub ty: Type,
}

/// A selection between two branches by a condition.
#[derive(Debug, Clone, PartialEq, Eq, Hash)]
pub struct ExprTernary {
    pub cond: Trace,
    pub true_expr: Trace,
    pub false_expr: Trace,
}

/// A variable.
#[derive(Debug, Clone, PartialEq, Eq, Hash)]
pub struct ExprVar {
    pub var: Var,
}

/// A call of a function on arguments.
#[derive(Debug, Clone, PartialEq, Eq, Hash)]
pub struct ExprCall {
    pub func: Func,
    pub args: Vec<Trace>,
}

/// A literal.
#[derive(Debug, Clone, PartialEq, Eq, Hash)]
pub struct ExprLit {
    pub lit: Lit,
}

/// The access of a field of a struct value; `ty` is the type of the field.
#[derive(Debug, Clone, PartialEq, Eq, Hash)]
pub struct ExprField {
    pub base: Trace,
    pub member: String,
    pub ty: Type,
}

/// A node of the expression graph. Its operands are handles of nodes that
/// were built before it.
#[derive(Debug, Clone, PartialEq, Eq, Hash)]
pub enum Expr {
    Binary(ExprBinary),
    Ternary(ExprTernary),
    Var(ExprVar),
    Call(ExprCall),
    Lit(ExprLit),
    Field(ExprField),
}

} // verus!
