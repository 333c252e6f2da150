//! Typed handles: a scalar and a boolean of a graph. What the checked
//! constructors test when they run, these handles carry as their
//! invariant, so that the operations on them cannot be refused for the
//! type of the handle itself.

use vstd::prelude::*;
use crate::dag::Graph;
use crate::error::Error;
use crate::lang::{
    BaseType, BinOp, Expr, ExprBinary, ExprTernary, ExprVar, Ident, Lit, ScalarType, Trace, Type,
    Var,
};
use crate::value::primitives::{binary, from_ident, literal, ternary};

verus! {

/// A node of scalar type.
#[derive(Debug, Clone, Copy, PartialEq, Eq, Structural, Hash)]
pub struct Scalar {
    pub trace: Trace,
    pub ty: ScalarType,
}

/// A node of boolean type.
#[derive(Debug, Clone, Copy, PartialEq, Eq, Structural, Hash)]
pub struct Bool {
    pub trace: Trace,
}

impl Scalar {
    /// Whether the handle names a node of `g` of the type it says.
    pub open spec fn wf(self, g: &Graph) -> bool {
        g.has(self.trace) && g.type_of(self.trace) == Type::scalar(self.ty)
    }

    /// Whether the handle names a node of `g` of the type it says.
    pub fn valid(&self, g: &Graph) -> (r: bool)
        requires
            g.wf(),
        ensures
            r == self.wf(g),
    {
        g.contains(self.trace) && g.ty(self.trace) == Type::Base(BaseType::Scalar(self.ty))
    }

    /// The scalar that a node is, or `None` if the handle names no node
    /// of the graph or one that is no scalar.
    pub fn from_trace(g: &Graph, trace: Trace) -> (r: Option<Scalar>)
        requires
            g.wf(),
        ensures
            match r {
                Some(s) => s.trace == trace && s.wf(g),
                None => !g.has(trace) || !g.type_of(trace).is_scalar(),
            },
    {
        if !g.contains(trace) {
            return None;
        }
        match g.ty(trace) {
            Type::Base(BaseType::Scalar(ty)) => Some(Scalar { trace, ty }),
            _ => None,
        }
    }

    /// The input of scalar type that an identifier names.
    pub fn from_ident(g: &mut Graph, ident: Ident, ty: ScalarType) -> (r: Scalar)
        requires
            old(g).wf(),
        ensures
            final(g).appended(old(g), r.trace),
            final(g).nodes()[r.trace.index as int] == Expr::Var(
                ExprVar { var: Var { ident, ty: Type::scalar(ty), init: None } },
            ),
            r.ty == ty,
            r.wf(final(g)),
    {
        let trace = from_ident(g, ident, Type::Base(BaseType::Scalar(ty)));
        Scalar { trace, ty }
    }

    /// The scalar that a literal is.
    pub fn new(g: &mut Graph, lit: Lit) -> (r: Scalar)
        requires
            old(g).wf(),
        ensures
            final(g).appended(old(g), r.trace),
            final(g).nodes()[r.trace.index as int] == Expr::Lit(crate::lang::ExprLit { lit }),
            r.ty == lit.ty,
            r.wf(final(g)),
    {
        let ty: ScalarType = lit.ty;
        let trace = literal(g, lit);
        Scalar { trace, ty }
    }

    /// The node that the handle names.
    pub fn expr(&self) -> (r: Trace)
        ensures
            r == self.trace,
    {
        self.trace
    }

    /// Whether two scalars are equal: a boolean. Scalars of two types are
    /// refused.
    pub fn eq(&self, g: &mut Graph, right: Scalar) -> (r: Result<Bool, Error>)
        requires
            old(g).wf(),
            self.wf(old(g)),
            right.wf(old(g)),
        ensures
            final(g).wf(),
            match r {
                Ok(b) => {
                    &&& self.ty == right.ty
                    &&& final(g).appended(old(g), b.trace)
                    &&& final(g).nodes()[b.trace.index as int] == Expr::Binary(
                        ExprBinary {
                            left: self.trace,
                            op: BinOp::Eq,
                            right: right.trace,
                            ty: Type::boolean(),
                        },
                    )
                    &&& b.wf(final(g))
                },
                Err(e) => e == Error::OperandMismatch && self.ty != right.ty && final(g).same_as(
                    old(g),
                ),
            },
    {
        match binary(g, self.trace, BinOp::Eq, right.trace) {
            Ok(trace) => Ok(Bool { trace }),
            Err(e) => Err(e),
        }
    }

    /// Applies an arithmetic operator to two numbers of one type.
    /// Booleans and scalars of two types are refused.
    pub fn arithmetic(&self, g: &mut Graph, op: BinOp, right: Scalar) -> (r: Result<Scalar, Error>)
        requires
            old(g).wf(),
            self.wf(old(g)),
            right.wf(old(g)),
            op == BinOp::Add || op == BinOp::Sub || op == BinOp::Mul || op == BinOp::Div,
        ensures
            final(g).wf(),
            match r {
                Ok(s) => {
                    &&& self.ty == right.ty
                    &&& self.ty.numeric()
                    &&& final(g).appended(old(g), s.trace)
                    &&& final(g).nodes()[s.trace.index as int] == Expr::Binary(
                        ExprBinary {
                            left: self.trace,
                            op,
                            right: right.trace,
                            ty: Type::scalar(self.ty),
                        },
                    )
                    &&& s.ty == self.ty
                    &&& s.wf(final(g))
                },
                Err(e) => {
                    &&& final(g).same_as(old(g))
                    &&& if self.ty != right.ty {
                        e == Error::OperandMismatch
                    } else {
                        e == Error::OperandType && !self.ty.numeric()
                    }
                },
            },
    {
        match binary(g, self.trace, op, right.trace) {
            Ok(trace) => Ok(Scalar { trace, ty: self.ty }),
            Err(e) => Err(e),
        }
    }
}

impl Bool {
    /// Whether the handle names a boolean node of `g`.
    pub open spec fn wf(self, g: &Graph) -> bool {
        g.has(self.trace) && g.type_of(self.trace) == Type::boolean()
    }

    /// Whether the handle names a boolean node of `g`.
    pub fn valid(&self, g: &Graph) -> (r: bool)
        requires
            g.wf(),
        ensures
            r == self.wf(g),
    {
        g.contains(self.trace) && g.ty(self.trace) == Type::Base(
            BaseType::Scalar(ScalarType::Bool),
        )
    }

    /// The boolean that a node is, or `None` if the handle names no node
    /// of the graph or one that is no boolean.
    pub fn from_trace(g: &Graph, trace: Trace) -> (r: Option<Bool>)
        requires
            g.wf(),
        ensures
            match r {
                Some(b) => b.trace == trace && b.wf(g),
                None => !g.has(trace) || g.type_of(trace) != Type::boolean(),
            },
    {
        let b = Bool { trace };
        if b.valid(g) {
            Some(b)
        } else {
            None
        }
    }

    /// The node that the handle names.
    pub fn expr(&self) -> (r: Trace)
        ensures
            r == self.trace,
    {
        self.trace
    }

    /// The conjunction with another boolean.
    pub fn and(self, g: &mut Graph, right: Bool) -> (r: Bool)
        requires
            old(g).wf(),
            self.wf(old(g)),
            right.wf(old(g)),
        ensures
            final(g).appended(old(g), r.trace),
            final(g).nodes()[r.trace.index as int] == Expr::Binary(
                ExprBinary {
                    left: self.trace,
                    op: BinOp::And,
                    right: right.trace,
                    ty: Type::boolean(),
                },
            ),
            r.wf(final(g)),
    {
        match binary(g, self.trace, BinOp::And, right.trace) {
            Ok(trace) => Bool { trace },
            Err(_) => self,
        }
    }

    /// The disjunction with another boolean.
    pub fn or(self, g: &mut Graph, right: Bool) -> (r: Bool)
        requires
            old(g).wf(),
            self.wf(old(g)),
            right.wf(old(g)),
        ensures
            final(g).appended(old(g), r.trace),
            final(g).nodes()[r.trace.index as int] == Expr::Binary(
                ExprBinary {
                    left: self.trace,
                    op: BinOp::Or,
                    right: right.trace,
                    ty: Type::boolean(),
                },
            ),
            r.wf(final(g)),
    {
        match binary(g, self.trace, BinOp::Or, right.trace) {
            Ok(trace) => Bool { trace },
            Err(_) => self,
        }
    }

    /// Selects between two values of one type by this condition. Values
    /// of two types, and handles of no node, are refused.
    pub fn ternary(self, g: &mut Graph, true_value: Trace, false_value: Trace) -> (r: Result<
        Trace,
        Error,
    >)
        requires
            old(g).wf(),
            self.wf(old(g)),
        ensures
            final(g).wf(),
            match r {
                Ok(t) => {
                    &&& old(g).has(true_value) && old(g).has(false_value)
                    &&& old(g).type_of(true_value) == old(g).type_of(false_value)
                    &&& final(g).appended(old(g), t)
                    &&& final(g).nodes()[t.index as int] == Expr::Ternary(
                        ExprTernary {
                            cond: self.trace,
                            true_expr: true_value,
                            false_expr: false_value,
                        },
                    )
                    &&& final(g).type_of(t) == old(g).type_of(true_value)
                },
                Err(e) => {
                    &&& final(g).same_as(old(g))
                    &&& if !old(g).has(true_value) || !old(g).has(false_value) {
                        e == Error::UnknownNode
                    } else {
                        e == Error::BranchMismatch && old(g).type_of(true_value) != old(g).type_of(
                            false_value,
                        )
                    }
                },
            },
    {
        ternary(g, self.trace, true_value, false_value)
    }
}

} // verus!
