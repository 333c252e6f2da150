//! The expression graph: an arena of immutable nodes. The identity of a
//! node is its position, so a value that is used twice is one node with
//! two users.

use vstd::prelude::*;
use crate::lang::{Expr, Func, FuncId, FuncUserDefined, Trace, Type};

verus! {

/// The type of node `n`. The type of a selection is that of its branches,
/// the type of a call that of the function's result.
pub open spec fn node_ty(nodes: Seq<Expr>, funcs: Seq<FuncUserDefined>, n: int) -> Type
    decreases n,
{
    if n < 0 || n >= nodes.len() {
        Type::boolean()
    } else {
        match nodes[n] {
            Expr::Binary(e) => e.ty,
            Expr::Ternary(e) => if e.true_expr.index < n {
                node_ty(nodes, funcs, e.true_expr.index as int)
            } else {
                Type::boolean()
            },
            Expr::Var(e) => e.var.ty,
            Expr::Call(e) => match e.func {
                Func::BuiltIn(f) => f.ty,
                Func::UserDefined(id) => if id.index < funcs.len() && funcs[id.index as int].result.index
                    < n {
                    node_ty(nodes, funcs, funcs[id.index as int].result.index as int)
                } else {
                    Type::boolean()
                },
            },
            Expr::Lit(e) => Type::scalar(e.lit.ty),
            Expr::Field(e) => e.ty,
        }
    }
}

/// Whether every handle of `args` is a node before `n`.
pub open spec fn all_before(args: Seq<Trace>, n: int) -> bool {
    forall|k: int| 0 <= k < args.len() ==> (#[trigger] args[k]).index < n
}

/// Whether the arguments have the types of the parameters, one for one.
pub open spec fn args_match(
    nodes: Seq<Expr>,
    funcs: Seq<FuncUserDefined>,
    args: Seq<Trace>,
    params: Seq<Trace>,
) -> bool {
    &&& args.len() == params.len()
    &&& forall|k: int|
        0 <= k < args.len() ==> node_ty(nodes, funcs, (#[trigger] args[k]).index as int) == node_ty(
            nodes,
            funcs,
            params[k].index as int,
        )
}

/// Whether node `n` is well typed: its operands were built before it and
/// have the types that its kind asks for.
pub open spec fn node_ok(nodes: Seq<Expr>, funcs: Seq<FuncUserDefined>, n: int) -> bool {
    match nodes[n] {
        Expr::Binary(e) => {
            &&& e.left.index < n
            &&& e.right.index < n
            &&& node_ty(nodes, funcs, e.left.index as int) == node_ty(
                nodes,
                funcs,
                e.right.index as int,
            )
            &&& e.op.accepts(node_ty(nodes, funcs, e.left.index as int))
            &&& e.ty == e.op.result(node_ty(nodes, funcs, e.left.index as int))
        },
        Expr::Ternary(e) => {
            &&& e.cond.index < n
            &&& e.true_expr.index < n
            &&& e.false_expr.index < n
            &&& node_ty(nodes, funcs, e.cond.index as int) == Type::boolean()
            &&& node_ty(nodes, funcs, e.true_expr.index as int) == node_ty(
                nodes,
                funcs,
                e.false_expr.index as int,
            )
        },
        Expr::Var(e) => match e.var.init {
            Some(init) => init.index < n && node_ty(nodes, funcs, init.index as int) == e.var.ty,
            None => true,
        },
        Expr::Call(e) => {
            &&& all_before(e.args@, n)
            &&& match e.func {
                Func::BuiltIn(_) => true,
                Func::UserDefined(id) => {
                    &&& id.index < funcs.len()
                    &&& forall|f: int| 0 <= f <= id.index ==> (#[trigger] funcs[f]).result.index < n
                    &&& all_before(funcs[id.index as int].params@, n)
                    &&& args_match(nodes, funcs, e.args@, funcs[id.index as int].params@)
                },
            }
        },
        Expr::Lit(_) => true,
        Expr::Field(e) => e.base.index < n && node_ty(nodes, funcs, e.base.index as int).is_struct(),
    }
}

/// Whether node `n` is a variable without initializer.
pub open spec fn is_parameter(nodes: Seq<Expr>, n: int) -> bool {
    0 <= n < nodes.len() && (nodes[n] matches Expr::Var(e) && e.var.init is None)
}

/// Whether function `f` is well formed: its result is a node of the graph
/// and its parameters are variables without initializer.
pub open spec fn func_ok(nodes: Seq<Expr>, funcs: Seq<FuncUserDefined>, f: int) -> bool {
    &&& funcs[f].result.index < nodes.len()
    &&& forall|k: int|
        0 <= k < funcs[f].params@.len() ==> is_parameter(
            nodes,
            (#[trigger] funcs[f].params@[k]).index as int,
        )
}

/// The invariant of a graph: every node and every function is well
/// formed.
pub open spec fn graph_wf(nodes: Seq<Expr>, funcs: Seq<FuncUserDefined>) -> bool {
    &&& forall|n: int| 0 <= n < nodes.len() ==> #[trigger] node_ok(nodes, funcs, n)
    &&& forall|f: int| 0 <= f < funcs.len() ==> #[trigger] func_ok(nodes, funcs, f)
}

/// Whether `more` begins with `less`.
pub open spec fn extends<T>(more: Seq<T>, less: Seq<T>) -> bool {
    less.len() <= more.len() && more.subrange(0, less.len() as int) == less
}

/// Nodes and functions that are added to a graph change neither the type
/// nor the well-formedness of what it held before.
pub proof fn lemma_extension(
    nodes: Seq<Expr>,
    funcs: Seq<FuncUserDefined>,
    more_nodes: Seq<Expr>,
    more_funcs: Seq<FuncUserDefined>,
    n: int,
)
    requires
        graph_wf(nodes, funcs),
        extends(more_nodes, nodes),
        extends(more_funcs, funcs),
        0 <= n < nodes.len(),
    ensures
        node_ty(more_nodes, more_funcs, n) == node_ty(nodes, funcs, n),
        node_ok(more_nodes, more_funcs, n),
    decreases n, 1nat,
{
    assert(node_ok(nodes, funcs, n));
    match nodes[n] {
        Expr::Binary(e) => {
            lemma_extension(nodes, funcs, more_nodes, more_funcs, e.left.index as int);
            lemma_extension(nodes, funcs, more_nodes, more_funcs, e.right.index as int);
        },
        Expr::Ternary(e) => {
            lemma_extension(nodes, funcs, more_nodes, more_funcs, e.cond.index as int);
            lemma_extension(nodes, funcs, more_nodes, more_funcs, e.true_expr.index as int);
            lemma_extension(nodes, funcs, more_nodes, more_funcs, e.false_expr.index as int);
        },
        Expr::Var(e) => {
            if let Some(init) = e.var.init {
                lemma_extension(nodes, funcs, more_nodes, more_funcs, init.index as int);
            }
        },
        Expr::Call(e) => {
            if let Func::UserDefined(id) = e.func {
                let f = id.index as int;
                assert forall|h: int| 0 <= h <= f implies (#[trigger] more_funcs[h]).result.index
                    < n by {
                    assert(funcs[h].result.index < n);
                }
                lemma_extension(
                    nodes,
                    funcs,
                    more_nodes,
                    more_funcs,
                    funcs[f].result.index as int,
                );
                let args = e.args@;
                let params = funcs[f].params@;
                assert forall|k: int| 0 <= k < args.len() implies node_ty(
                    more_nodes,
                    more_funcs,
                    (#[trigger] args[k]).index as int,
                ) == node_ty(more_nodes, more_funcs, params[k].index as int) by {
                    lemma_extension(nodes, funcs, more_nodes, more_funcs, args[k].index as int);
                    lemma_extension(nodes, funcs, more_nodes, more_funcs, params[k].index as int);
                }
            }
        },
        Expr::Lit(_) => {},
        Expr::Field(e) => {
            lemma_extension(nodes, funcs, more_nodes, more_funcs, e.base.index as int);
        },
    }
}

/// A node that is added leaves the types of the others as they were.
pub proof fn lemma_types_kept(nodes: Seq<Expr>, funcs: Seq<FuncUserDefined>, e: Expr, n: int)
    requires
        graph_wf(nodes, funcs),
        0 <= n < nodes.len(),
    ensures
        node_ty(nodes.push(e), funcs, n) == node_ty(nodes, funcs, n),
{
    assert(nodes.push(e).subrange(0, nodes.len() as int) =~= nodes);
    assert(funcs.subrange(0, funcs.len() as int) =~= funcs);
    lemma_extension(nodes, funcs, nodes.push(e), funcs, n);
}

/// A well-formed graph stays well formed when a well-typed node is added.
pub proof fn lemma_push_node(nodes: Seq<Expr>, funcs: Seq<FuncUserDefined>, e: Expr)
    requires
        graph_wf(nodes, funcs),
        node_ok(nodes.push(e), funcs, nodes.len() as int),
    ensures
        graph_wf(nodes.push(e), funcs),
        forall|n: int|
            0 <= n < nodes.len() ==> #[trigger] node_ty(nodes.push(e), funcs, n) == node_ty(
                nodes,
                funcs,
                n,
            ),
{
    let more = nodes.push(e);
    assert(more.subrange(0, nodes.len() as int) =~= nodes);
    assert(funcs.subrange(0, funcs.len() as int) =~= funcs);
    assert forall|n: int| 0 <= n < more.len() implies #[trigger] node_ok(more, funcs, n) by {
        if n < nodes.len() {
            lemma_extension(nodes, funcs, more, funcs, n);
        }
    }
    assert forall|n: int| 0 <= n < nodes.len() implies #[trigger] node_ty(more, funcs, n)
        == node_ty(nodes, funcs, n) by {
        lemma_extension(nodes, funcs, more, funcs, n);
    }
    assert forall|f: int| 0 <= f < funcs.len() implies #[trigger] func_ok(more, funcs, f) by {
        assert(func_ok(nodes, funcs, f));
    }
}

/// A well-formed graph stays well formed when a well-formed function is
/// added.
pub proof fn lemma_push_func(nodes: Seq<Expr>, funcs: Seq<FuncUserDefined>, f: FuncUserDefined)
    requires
        graph_wf(nodes, funcs),
        func_ok(nodes, funcs.push(f), funcs.len() as int),
    ensures
        graph_wf(nodes, funcs.push(f)),
        forall|n: int|
            0 <= n < nodes.len() ==> #[trigger] node_ty(nodes, funcs.push(f), n) == node_ty(
                nodes,
                funcs,
                n,
            ),
{
    let more = funcs.push(f);
    assert(more.subrange(0, funcs.len() as int) =~= funcs);
    assert(nodes.subrange(0, nodes.len() as int) =~= nodes);
    assert forall|n: int| 0 <= n < nodes.len() implies #[trigger] node_ok(nodes, more, n) by {
        lemma_extension(nodes, funcs, nodes, more, n);
    }
    assert forall|n: int| 0 <= n < nodes.len() implies #[trigger] node_ty(nodes, more, n)
        == node_ty(nodes, funcs, n) by {
        lemma_extension(nodes, funcs, nodes, more, n);
    }
    assert forall|g: int| 0 <= g < more.len() implies #[trigger] func_ok(nodes, more, g) by {
        if g < funcs.len() {
            assert(func_ok(nodes, funcs, g));
        }
    }
}

/// An expression graph together with the functions defined in it.
pub struct Graph {
    nodes: Vec<Expr>,
    funcs: Vec<FuncUserDefined>,
}

impl Graph {
    /// The nodes in the order in which they were built.
    pub closed spec fn nodes(&self) -> Seq<Expr> {
        self.nodes@
    }

    /// The functions in the order in which they were defined.
    pub closed spec fn funcs(&self) -> Seq<FuncUserDefined> {
        self.funcs@
    }

    /// The invariant of a graph.
    pub open spec fn wf(&self) -> bool {
        graph_wf(self.nodes(), self.funcs())
    }

    /// Whether the handle names a node of this graph.
    pub open spec fn has(&self, t: Trace) -> bool {
        t.index < self.nodes().len()
    }

    /// The type of the node that the handle names.
    pub open spec fn type_of(&self, t: Trace) -> Type {
        node_ty(self.nodes(), self.funcs(), t.index as int)
    }

    /// Whether `self` holds everything that `before` held, at the same
    /// places.
    pub open spec fn grown_from(&self, before: &Graph) -> bool {
        &&& extends(self.nodes(), before.nodes())
        &&& extends(self.funcs(), before.funcs())
    }

    /// A graph without nodes.
    pub fn new() -> (g: Graph)
        ensures
            g.nodes().len() == 0,
            g.funcs().len() == 0,
            g.wf(),
    {
        Graph { nodes: Vec::new(), funcs: Vec::new() }
    }

    /// The number of nodes.
    pub fn len(&self) -> (r: usize)
        ensures
            r == self.nodes().len(),
    {
        self.nodes.len()
    }

    /// The number of functions.
    pub fn func_count(&self) -> (r: usize)
        ensures
            r == self.funcs().len(),
    {
        self.funcs.len()
    }

    /// Whether the handle names a node of this graph.
    pub fn contains(&self, t: Trace) -> (r: bool)
        ensures
            r == self.has(t),
    {
        t.index < self.nodes.len()
    }

    /// The node that the handle names.
    pub fn node(&self, t: Trace) -> (r: &Expr)
        requires
            self.has(t),
        ensures
            *r == self.nodes()[t.index as int],
    {
        &self.nodes[t.index]
    }

    /// The function that the handle names.
    pub fn func(&self, f: FuncId) -> (r: &FuncUserDefined)
        requires
            f.index < self.funcs().len(),
        ensures
            *r == self.funcs()[f.index as int],
    {
        &self.funcs[f.index]
    }

    /// The type of a node.
    pub fn ty(&self, t: Trace) -> (r: Type)
        requires
            self.wf(),
            self.has(t),
        ensures
            r == self.type_of(t),
        decreases t.index,
    {
        proof {
            assert(node_ok(self.nodes(), self.funcs(), t.index as int));
        }
        match &self.nodes[t.index] {
            Expr::Binary(e) => e.ty,
            Expr::Ternary(e) => self.ty(e.true_expr),
            Expr::Var(e) => e.var.ty,
            Expr::Call(e) => match &e.func {
                Func::BuiltIn(f) => f.ty,
                Func::UserDefined(id) => self.ty(self.funcs[id.index].result),
            },
            Expr::Lit(e) => Type::Base(crate::lang::BaseType::Scalar(e.lit.ty)),
            Expr::Field(e) => e.ty,
        }
    }

    /// Adds a well-typed node and gives its handle.
    pub(crate) fn push(&mut self, e: Expr) -> (t: Trace)
        requires
            old(self).wf(),
            node_ok(old(self).nodes().push(e), old(self).funcs(), old(self).nodes().len() as int),
        ensures
            final(self).wf(),
            final(self).nodes() == old(self).nodes().push(e),
            final(self).funcs() == old(self).funcs(),
            final(self).grown_from(old(self)),
            t.index == old(self).nodes().len(),
            forall|n: int|
                0 <= n < old(self).nodes().len() ==> #[trigger] node_ty(
                    final(self).nodes(),
                    final(self).funcs(),
                    n,
                ) == node_ty(old(self).nodes(), old(self).funcs(), n),
    {
        proof {
            lemma_push_node(self.nodes(), self.funcs(), e);
            assert(self.nodes().push(e).subrange(0, self.nodes().len() as int) =~= self.nodes());
            assert(self.funcs().subrange(0, self.funcs().len() as int) =~= self.funcs());
        }
        let index: usize = self.nodes.len();
        self.nodes.push(e);
        Trace { index }
    }

    /// Adds a well-formed function and gives its handle.
    pub(crate) fn push_func(&mut self, f: FuncUserDefined) -> (id: FuncId)
        requires
            old(self).wf(),
            func_ok(old(self).nodes(), old(self).funcs().push(f), old(self).funcs().len() as int),
        ensures
            final(self).wf(),
            final(self).nodes() == old(self).nodes(),
            final(self).funcs() == old(self).funcs().push(f),
            final(self).grown_from(old(self)),
            id.index == old(self).funcs().len(),
            forall|n: int|
                0 <= n < old(self).nodes().len() ==> #[trigger] node_ty(
                    final(self).nodes(),
                    final(self).funcs(),
                    n,
                ) == node_ty(old(self).nodes(), old(self).funcs(), n),
    {
        proof {
            lemma_push_func(self.nodes(), self.funcs(), f);
            assert(self.funcs().push(f).subrange(0, self.funcs().len() as int) =~= self.funcs());
            assert(self.nodes().subrange(0, self.nodes().len() as int) =~= self.nodes());
        }
        let index: usize = self.funcs.len();
        self.funcs.push(f);
        FuncId { index }
    }
}

impl Graph {
    /// Whether `self` is `before` with one node more, named by `t`, and
    /// the same functions.
    pub open spec fn appended(&self, before: &Graph, t: Trace) -> bool {
        &&& self.wf()
        &&& self.nodes().len() == before.nodes().len() + 1
        &&& extends(self.nodes(), before.nodes())
        &&& self.funcs() == before.funcs()
        &&& t.index == before.nodes().len()
        &&& forall|n: int|
            0 <= n < before.nodes().len() ==> #[trigger] node_ty(self.nodes(), self.funcs(), n)
                == node_ty(before.nodes(), before.funcs(), n)
    }

    /// Whether `self` holds the nodes and functions of `other`.
    pub open spec fn same_as(&self, other: &Graph) -> bool {
        self.nodes() == other.nodes() && self.funcs() == other.funcs()
    }
}

impl Graph {
    /// Whether `self` is `before` with `count` nodes more and the same
    /// functions.
    pub open spec fn grown_by(&self, before: &Graph, count: nat) -> bool {
        &&& self.wf()
        &&& self.nodes().len() == before.nodes().len() + count
        &&& extends(self.nodes(), before.nodes())
        &&& self.funcs() == before.funcs()
        &&& forall|n: int|
            0 <= n < before.nodes().len() ==> #[trigger] node_ty(self.nodes(), self.funcs(), n)
                == node_ty(before.nodes(), before.funcs(), n)
    }

    /// A graph that grew by some nodes and then by one more grew by their
    /// sum, and kept the nodes it got on the way.
    pub proof fn lemma_grown_step(&self, mid: &Graph, before: &Graph, count: nat, t: Trace)
        requires
            mid.grown_by(before, count),
            self.appended(mid, t),
        ensures
            self.grown_by(before, count + 1),
            forall|n: int| 0 <= n < mid.nodes().len() ==> self.nodes()[n] == mid.nodes()[n],
    {
        assert(self.nodes().subrange(0, before.nodes().len() as int) =~= mid.nodes().subrange(
            0,
            mid.nodes().len() as int,
        ).subrange(0, before.nodes().len() as int));
        assert(mid.nodes().subrange(0, mid.nodes().len() as int) =~= mid.nodes());
    }

    /// A graph has grown by nothing from itself.
    pub proof fn lemma_grown_none(&self)
        requires
            self.wf(),
        ensures
            self.grown_by(self, 0),
    {
        assert(self.nodes().subrange(0, self.nodes().len() as int) =~= self.nodes());
    }
}

impl Func {
    /// Whether the function is one that `g` knows: any built-in function,
    /// and the functions that are defined in `g`.
    pub open spec fn known_to(self, g: &Graph) -> bool {
        match self {
            Func::BuiltIn(_) => true,
            Func::UserDefined(id) => id.index < g.funcs().len(),
        }
    }

    /// The type of the result of the function.
    pub open spec fn result_ty(self, g: &Graph) -> Type {
        match self {
            Func::BuiltIn(f) => f.ty,
            Func::UserDefined(id) => g.type_of(g.funcs()[id.index as int].result),
        }
    }

    /// The name that the function was given.
    pub open spec fn given_name(self, g: &Graph) -> Seq<char> {
        match self {
            Func::BuiltIn(f) => f.name@,
            Func::UserDefined(id) => g.funcs()[id.index as int].ident.name@,
        }
    }

    /// The type of the result of the function.
    pub fn ty(&self, g: &Graph) -> (r: Type)
        requires
            g.wf(),
            self.known_to(g),
        ensures
            r == self.result_ty(g),
    {
        match self {
            Func::BuiltIn(f) => f.ty,
            Func::UserDefined(id) => {
                proof {
                    assert(func_ok(g.nodes(), g.funcs(), id.index as int));
                }
                g.ty(g.func(*id).result)
            },
        }
    }

    /// The name that the function was given.
    pub fn name(&self, g: &Graph) -> (r: String)
        requires
            self.known_to(g),
        ensures
            r@ == self.given_name(g),
    {
        match self {
            Func::BuiltIn(f) => f.name.clone(),
            Func::UserDefined(id) => g.func(*id).ident.name.clone(),
        }
    }
}

} // verus!
