//! What is computed where: which nodes a value depends on, and which of
//! them are used by more than one node and are therefore computed once,
//! under a name, before their first use.

use vstd::prelude::*;
use crate::dag::{graph_wf, node_ok, Graph};
use crate::dag::func_ok;
use crate::lang::{Expr, Func, FuncUserDefined, Trace};

verus! {

/// The operands of a node. The arguments of a call are operands; the body
/// of the function it calls is not.
pub open spec fn operands(e: Expr) -> Seq<Trace> {
    match e {
        Expr::Binary(e) => seq![e.left, e.right],
        Expr::Ternary(e) => seq![e.cond, e.true_expr, e.false_expr],
        Expr::Var(e) => match e.var.init {
            Some(init) => seq![init],
            None => Seq::empty(),
        },
        Expr::Call(e) => e.args@,
        Expr::Lit(_) => Seq::empty(),
        Expr::Field(e) => seq![e.base],
    }
}

/// Whether node `n` is among the first `k` of these operands.
pub open spec fn among(ops: Seq<Trace>, k: int, n: int) -> bool {
    exists|j: int| 0 <= j < k && j < ops.len() && (#[trigger] ops[j]).index == n
}

/// Whether node `p` has node `n` as an operand.
pub open spec fn uses(nodes: Seq<Expr>, p: int, n: int) -> bool {
    0 <= p < nodes.len() && among(operands(nodes[p]), operands(nodes[p]).len() as int, n)
}

/// Whether the value of node `root` depends on node `n`: `n` is `root`, or
/// an operand of a node that `root` depends on.
pub open spec fn reaches(nodes: Seq<Expr>, root: int, n: int) -> bool
    decreases root - n,
{
    n == root || (0 <= n < root && exists|p: int|
        n < p <= root && reaches(nodes, root, p) && #[trigger] uses(nodes, p, n))
}

/// Whether node `n` is an operand of a node from `lo` on that `root`
/// depends on.
pub open spec fn used_above(nodes: Seq<Expr>, root: int, lo: int, n: int) -> bool {
    exists|p: int| lo <= p <= root && reaches(nodes, root, p) && #[trigger] uses(nodes, p, n)
}

/// Whether node `n` is an operand of two different nodes from `lo` on that
/// `root` depends on.
pub open spec fn shared_above(nodes: Seq<Expr>, root: int, lo: int, n: int) -> bool {
    exists|p: int, q: int|
        lo <= p <= root && lo <= q <= root && p != q && reaches(nodes, root, p) && reaches(
            nodes,
            root,
            q,
        ) && #[trigger] uses(nodes, p, n) && #[trigger] uses(nodes, q, n)
}

/// Whether node `n` is used by more than one of the nodes that `root`
/// depends on.
pub open spec fn hoisted(nodes: Seq<Expr>, root: int, n: int) -> bool {
    shared_above(nodes, root, 0, n)
}

/// In a well-formed graph the operands of a node were built before it.
pub proof fn lemma_uses_below(nodes: Seq<Expr>, funcs: Seq<FuncUserDefined>, p: int, n: int)
    requires
        graph_wf(nodes, funcs),
        uses(nodes, p, n),
    ensures
        0 <= n < p,
{
    assert(node_ok(nodes, funcs, p));
}

/// A value depends only on nodes that were built no later than it.
pub proof fn lemma_reaches_below(nodes: Seq<Expr>, root: int, n: int)
    requires
        reaches(nodes, root, n),
    ensures
        n <= root,
        n == root || 0 <= n,
{
}

/// A node below `root` is depended on exactly if a node above it that is
/// depended on uses it.
pub proof fn lemma_reaches_unfold(nodes: Seq<Expr>, funcs: Seq<FuncUserDefined>, root: int, n: int)
    requires
        graph_wf(nodes, funcs),
        0 <= n <= root < nodes.len(),
    ensures
        reaches(nodes, root, n) == (n == root || used_above(nodes, root, n + 1, n)),
{
}

/// Nodes below `lo` that use `n` do not matter once `lo` is at most
/// `n + 1`.
pub proof fn lemma_used_floor(nodes: Seq<Expr>, funcs: Seq<FuncUserDefined>, root: int, lo: int, n: int)
    requires
        graph_wf(nodes, funcs),
        0 <= lo <= n + 1,
    ensures
        used_above(nodes, root, lo, n) == used_above(nodes, root, n + 1, n),
{
    if used_above(nodes, root, lo, n) {
        let p = choose|p: int|
            lo <= p <= root && reaches(nodes, root, p) && #[trigger] uses(nodes, p, n);
        lemma_uses_below(nodes, funcs, p, n);
    }
}

/// How the users of `n` from `lo - 1` on come from those from `lo` on.
pub proof fn lemma_used_step(nodes: Seq<Expr>, root: int, lo: int, n: int)
    requires
        0 < lo <= root + 1,
    ensures
        used_above(nodes, root, lo - 1, n) == (used_above(nodes, root, lo, n) || (reaches(
            nodes,
            root,
            lo - 1,
        ) && uses(nodes, lo - 1, n))),
{
}

/// How the pairs of users of `n` from `lo - 1` on come from those from
/// `lo` on.
pub proof fn lemma_shared_step(nodes: Seq<Expr>, root: int, lo: int, n: int)
    requires
        0 < lo <= root + 1,
    ensures
        shared_above(nodes, root, lo - 1, n) == (shared_above(nodes, root, lo, n) || (reaches(
            nodes,
            root,
            lo - 1,
        ) && uses(nodes, lo - 1, n) && used_above(nodes, root, lo, n))),
{
}

/// A pair of users is a user.
pub proof fn lemma_shared_is_used(nodes: Seq<Expr>, root: int, lo: int, n: int)
    requires
        shared_above(nodes, root, lo, n),
    ensures
        used_above(nodes, root, lo, n),
{
}

/// Whether node `n` is a call of function `f`.
pub open spec fn is_call_of(nodes: Seq<Expr>, n: int, f: int) -> bool {
    0 <= n < nodes.len() && (nodes[n] matches Expr::Call(e) && (e.func matches Func::UserDefined(id)
        && id.index == f))
}

/// Whether the value of node `root` depends on a call of function `f`. A
/// call in the body of a function that `root` calls does not count here.
pub open spec fn calls(nodes: Seq<Expr>, root: int, f: int) -> bool {
    exists|n: int| 0 <= n <= root && reaches(nodes, root, n) && #[trigger] is_call_of(nodes, n, f)
}

/// Whether the value of node `root` needs function `f`: it calls `f`, or a
/// function that it needs does.
pub open spec fn needed(nodes: Seq<Expr>, funcs: Seq<FuncUserDefined>, root: int, f: int) -> bool
    decreases funcs.len() - f,
{
    calls(nodes, root, f) || (0 <= f < funcs.len() && exists|g: int|
        f < g < funcs.len() && needed(nodes, funcs, root, g) && #[trigger] calls(
            nodes,
            funcs[g].result.index as int,
            f,
        ))
}

/// Whether `root` calls function `f`, or a function from `lo` on that
/// `root` needs does.
pub open spec fn needed_above(
    nodes: Seq<Expr>,
    funcs: Seq<FuncUserDefined>,
    root: int,
    lo: int,
    f: int,
) -> bool {
    calls(nodes, root, f) || exists|g: int|
        lo <= g < funcs.len() && needed(nodes, funcs, root, g) && #[trigger] calls(
            nodes,
            funcs[g].result.index as int,
            f,
        )
}

/// A function is defined after the functions that its body calls.
pub proof fn law_callee_defined_before(nodes: Seq<Expr>, funcs: Seq<FuncUserDefined>, g: int, f: int)
    requires
        graph_wf(nodes, funcs),
        0 <= g < funcs.len(),
        calls(nodes, funcs[g].result.index as int, f),
    ensures
        0 <= f < g,
{
    let root = funcs[g].result.index as int;
    let n = choose|n: int| 0 <= n <= root && reaches(nodes, root, n) && #[trigger] is_call_of(nodes, n, f);
    assert(func_ok(nodes, funcs, g));
    assert(node_ok(nodes, funcs, n));
    if g <= f {
        assert(funcs[g].result.index < n);
    }
}

/// A function that a needed function calls is needed: whatever the text
/// of a needed function calls is among the needed functions.
pub proof fn law_needed_is_closed(
    nodes: Seq<Expr>,
    funcs: Seq<FuncUserDefined>,
    root: int,
    g: int,
    f: int,
)
    requires
        graph_wf(nodes, funcs),
        0 <= g < funcs.len(),
        needed(nodes, funcs, root, g),
        calls(nodes, funcs[g].result.index as int, f),
    ensures
        needed(nodes, funcs, root, f),
        f < g,
{
    law_callee_defined_before(nodes, funcs, g, f);
}

/// Functions up to `f` do not matter for whether `f` is needed.
pub proof fn lemma_needed_floor(
    nodes: Seq<Expr>,
    funcs: Seq<FuncUserDefined>,
    root: int,
    lo: int,
    f: int,
)
    requires
        graph_wf(nodes, funcs),
        0 <= f < funcs.len(),
        0 <= lo <= f + 1,
    ensures
        needed_above(nodes, funcs, root, lo, f) == needed(nodes, funcs, root, f),
{
    if needed_above(nodes, funcs, root, lo, f) && !calls(nodes, root, f) {
        let g = choose|g: int|
            lo <= g < funcs.len() && needed(nodes, funcs, root, g) && #[trigger] calls(
                nodes,
                funcs[g].result.index as int,
                f,
            );
        law_callee_defined_before(nodes, funcs, g, f);
    }
}

/// How the needed functions from `lo - 1` on come from those from `lo`
/// on.
pub proof fn lemma_needed_step(
    nodes: Seq<Expr>,
    funcs: Seq<FuncUserDefined>,
    root: int,
    lo: int,
    f: int,
)
    requires
        0 < lo <= funcs.len(),
    ensures
        needed_above(nodes, funcs, root, lo - 1, f) == (needed_above(nodes, funcs, root, lo, f) || (
        needed(nodes, funcs, root, lo - 1) && calls(
            nodes,
            funcs[lo - 1].result.index as int,
            f,
        ))),
{
    if needed_above(nodes, funcs, root, lo - 1, f) && !calls(nodes, root, f) {
        let g = choose|g: int|
            lo - 1 <= g < funcs.len() && needed(nodes, funcs, root, g) && #[trigger] calls(
                nodes,
                funcs[g].result.index as int,
                f,
            );
        if g != lo - 1 {
            assert(lo <= g < funcs.len() && needed(nodes, funcs, root, g) && calls(
                nodes,
                funcs[g].result.index as int,
                f,
            ));
        }
    }
}

/// The operands of a node.
pub fn operand_list(e: &Expr) -> (r: Vec<Trace>)
    ensures
        r@ == operands(*e),
{
    let mut r: Vec<Trace> = Vec::new();
    match e {
        Expr::Binary(e) => {
            r.push(e.left);
            r.push(e.right);
        },
        Expr::Ternary(e) => {
            r.push(e.cond);
            r.push(e.true_expr);
            r.push(e.false_expr);
        },
        Expr::Var(e) => {
            match e.var.init {
                Some(init) => {
                    r.push(init);
                },
                None => {},
            }
        },
        Expr::Call(e) => {
            let mut i: usize = 0;
            while i < e.args.len()
                invariant
                    i <= e.args.len(),
                    r@ == e.args@.subrange(0, i as int),
                decreases e.args.len() - i,
            {
                r.push(e.args[i]);
                i += 1;
            }
        },
        Expr::Lit(_) => {},
        Expr::Field(e) => {
            r.push(e.base);
        },
    }
    r
}

/// A vector of `len` times `false`.
pub fn unmarked(len: usize) -> (r: Vec<bool>)
    ensures
        r@.len() == len,
        forall|i: int| 0 <= i < len ==> !r@[i],
{
    let mut r: Vec<bool> = Vec::new();
    while r.len() < len
        invariant
            r@.len() <= len,
            forall|i: int| 0 <= i < r@.len() ==> !r@[i],
        decreases len - r@.len(),
    {
        r.push(false);
    }
    r
}

/// What the value of a node depends on.
pub struct Scope {
    /// For every node up to the root, whether the root depends on it.
    pub reach: Vec<bool>,
    /// For every node up to the root, whether more than one node that the
    /// root depends on uses it.
    pub shared: Vec<bool>,
}

impl Scope {
    /// Whether the scope is that of `root` in `nodes`.
    pub open spec fn of(&self, nodes: Seq<Expr>, root: int) -> bool {
        &&& self.reach@.len() == root + 1
        &&& self.shared@.len() == root + 1
        &&& forall|n: int| 0 <= n <= root ==> #[trigger] self.reach@[n] == reaches(nodes, root, n)
        &&& forall|n: int| 0 <= n <= root ==> #[trigger] self.shared@[n] == hoisted(nodes, root, n)
    }
}

/// The state of the scan for users while the operands of node `p` are
/// gone through: `k` of them are done.
pub open spec fn scan_state(
    nodes: Seq<Expr>,
    root: int,
    p: int,
    ops: Seq<Trace>,
    k: int,
    reach: Seq<bool>,
    first: Seq<Option<usize>>,
    shared: Seq<bool>,
) -> bool {
    &&& reach.len() == root + 1
    &&& first.len() == root + 1
    &&& shared.len() == root + 1
    &&& forall|n: int|
        0 <= n <= root ==> #[trigger] reach[n] == (n == root || used_above(nodes, root, p + 1, n)
            || among(ops, k, n))
    &&& forall|n: int|
        0 <= n <= root ==> match #[trigger] first[n] {
            None => !used_above(nodes, root, p + 1, n) && !among(ops, k, n),
            Some(q) => if q == p {
                !used_above(nodes, root, p + 1, n) && among(ops, k, n)
            } else {
                p < q <= root && reaches(nodes, root, q as int) && uses(nodes, q as int, n)
            },
        }
    &&& forall|n: int|
        0 <= n <= root ==> #[trigger] shared[n] == (shared_above(nodes, root, p + 1, n) || (among(
            ops,
            k,
            n,
        ) && used_above(nodes, root, p + 1, n)))
}

/// Finds what the value of `root` depends on and which of those nodes
/// have more than one user.
pub fn analyse(g: &Graph, root: Trace) -> (scope: Scope)
    requires
        g.wf(),
        g.has(root),
    ensures
        scope.of(g.nodes(), root.index as int),
{
    let ghost nodes = g.nodes();
    let ghost funcs = g.funcs();
    let ghost r = root.index as int;
    let total: usize = g.len();
    assert(root.index < total);
    let len: usize = root.index + 1;
    let mut reach: Vec<bool> = unmarked(len);
    let mut shared: Vec<bool> = unmarked(len);
    let mut first: Vec<Option<usize>> = Vec::new();
    while first.len() < len
        invariant
            first@.len() <= len,
            forall|i: int| 0 <= i < first@.len() ==> first@[i] is None,
        decreases len - first@.len(),
    {
        first.push(None);
    }
    reach.set(root.index, true);
    let mut lo: usize = len;
    while lo > 0
        invariant
            lo <= len,
            len == r + 1,
            r == root.index,
            nodes == g.nodes(),
            funcs == g.funcs(),
            g.wf(),
            g.has(root),
            scan_state(nodes, r, lo - 1, Seq::empty(), 0, reach@, first@, shared@),
        decreases lo,
    {
        lo -= 1;
        let p: usize = lo;
        proof {
            lemma_reaches_unfold(nodes, funcs, r, p as int);
        }
        if reach[p] {
            let ops: Vec<Trace> = operand_list(g.node(Trace { index: p }));
            let mut k: usize = 0;
            while k < ops.len()
                invariant
                    k <= ops.len(),
                    p <= r,
                    r < nodes.len(),
                    graph_wf(nodes, funcs),
                    ops@ == operands(nodes[p as int]),
                    reaches(nodes, r, p as int),
                    scan_state(nodes, r, p as int, ops@, k as int, reach@, first@, shared@),
                decreases ops.len() - k,
            {
                let c: usize = ops[k].index;
                proof {
                    lemma_uses_below(nodes, funcs, p as int, c as int);
                }
                reach.set(c, true);
                match first[c] {
                    None => {
                        first.set(c, Some(p));
                    },
                    Some(q) => {
                        if q != p {
                            shared.set(c, true);
                        }
                    },
                }
                proof {
                    assert forall|n: int| 0 <= n <= r implies among(ops@, k + 1, n) == (among(
                        ops@,
                        k as int,
                        n,
                    ) || n == c) by {}
                    if shared_above(nodes, r, p + 1, c as int) {
                        lemma_shared_is_used(nodes, r, p + 1, c as int);
                    }
                    assert forall|n: int| 0 <= n <= r implies #[trigger] shared@[n] == (
                    shared_above(nodes, r, p + 1, n) || (among(ops@, k + 1, n) && used_above(
                        nodes,
                        r,
                        p + 1,
                        n,
                    ))) by {}
                }
                k += 1;
            }
        }
        proof {
            assert forall|n: int| 0 <= n <= r implies #[trigger] reach@[n] == (n == r
                || used_above(nodes, r, p as int, n)) by {
                lemma_used_step(nodes, r, p + 1, n);
            }
            assert forall|n: int| 0 <= n <= r implies match #[trigger] first@[n] {
                None => !used_above(nodes, r, p as int, n),
                Some(q) => p - 1 < q <= r && reaches(nodes, r, q as int) && uses(
                    nodes,
                    q as int,
                    n,
                ),
            } by {
                lemma_used_step(nodes, r, p + 1, n);
            }
            assert forall|n: int| 0 <= n <= r implies #[trigger] shared@[n] == shared_above(
                nodes,
                r,
                p as int,
                n,
            ) by {
                lemma_shared_step(nodes, r, p + 1, n);
            }
        }
    }
    proof {
        assert forall|n: int| 0 <= n <= r implies #[trigger] reach@[n] == reaches(nodes, r, n) by {
            lemma_reaches_unfold(nodes, funcs, r, n);
            lemma_used_floor(nodes, funcs, r, 0, n);
        }
    }
    Scope { reach, shared }
}

/// Whether the first `k` nodes hold a call of `f` that `root` depends on.
pub open spec fn calls_below(nodes: Seq<Expr>, root: int, k: int, f: int) -> bool {
    exists|n: int| 0 <= n < k && n <= root && reaches(nodes, root, n) && #[trigger] is_call_of(nodes, n, f)
}

/// Marks the functions that the value of `root` calls.
pub fn mark_calls(g: &Graph, root: Trace, marks: &mut Vec<bool>)
    requires
        g.wf(),
        g.has(root),
        old(marks)@.len() == g.funcs().len(),
    ensures
        final(marks)@.len() == old(marks)@.len(),
        forall|f: int|
            0 <= f < g.funcs().len() ==> #[trigger] final(marks)@[f] == (old(marks)@[f] || calls(
                g.nodes(),
                root.index as int,
                f,
            )),
{
    let ghost nodes = g.nodes();
    let ghost funcs = g.funcs();
    let ghost r = root.index as int;
    let scope: Scope = analyse(g, root);
    let total: usize = g.len();
    let mut n: usize = 0;
    while n <= root.index
        invariant
            n <= root.index + 1,
            root.index < total,
            g.wf(),
            g.has(root),
            nodes == g.nodes(),
            funcs == g.funcs(),
            r == root.index,
            scope.of(nodes, r),
            marks@.len() == funcs.len(),
            forall|f: int|
                0 <= f < funcs.len() ==> #[trigger] marks@[f] == (old(marks)@[f] || calls_below(
                    nodes,
                    r,
                    n as int,
                    f,
                )),
        decreases root.index + 1 - n,
    {
        let ghost before = marks@;
        if scope.reach[n] {
            match g.node(Trace { index: n }) {
                Expr::Call(e) => {
                    match e.func {
                        Func::UserDefined(id) => {
                            proof {
                                assert(node_ok(nodes, funcs, n as int));
                            }
                            marks.set(id.index, true);
                        },
                        Func::BuiltIn(_) => {},
                    }
                },
                _ => {},
            }
        }
        proof {
            assert forall|f: int| 0 <= f < funcs.len() implies #[trigger] marks@[f] == (old(marks)@[f] || calls_below(nodes, r, n + 1, f)) by {
                assert(before[f] == (old(marks)@[f] || calls_below(nodes, r, n as int, f)));
                if calls_below(nodes, r, n + 1, f) {
                    let m = choose|m: int|
                        0 <= m < n + 1 && m <= r && reaches(nodes, r, m) && #[trigger] is_call_of(
                            nodes,
                            m,
                            f,
                        );
                    if m < n {
                        assert(calls_below(nodes, r, n as int, f));
                    }
                }
                if calls_below(nodes, r, n as int, f) {
                    let m = choose|m: int|
                        0 <= m < n && m <= r && reaches(nodes, r, m) && #[trigger] is_call_of(
                            nodes,
                            m,
                            f,
                        );
                    assert(0 <= m < n + 1 && m <= r && reaches(nodes, r, m) && is_call_of(nodes, m, f));
                }
                if reaches(nodes, r, n as int) && is_call_of(nodes, n as int, f) {
                    assert(calls_below(nodes, r, n + 1, f));
                }
            }
        }
        n += 1;
    }
    proof {
        assert forall|f: int| 0 <= f < funcs.len() implies calls_below(nodes, r, r + 1, f) == calls(
            nodes,
            r,
            f,
        ) by {}
    }
}

/// For every function of the graph, whether the value of `root` needs it.
pub fn needed_functions(g: &Graph, root: Trace) -> (marks: Vec<bool>)
    requires
        g.wf(),
        g.has(root),
    ensures
        marks@.len() == g.funcs().len(),
        forall|f: int|
            0 <= f < g.funcs().len() ==> #[trigger] marks@[f] == needed(
                g.nodes(),
                g.funcs(),
                root.index as int,
                f,
            ),
{
    let ghost nodes = g.nodes();
    let ghost funcs = g.funcs();
    let ghost r = root.index as int;
    let mut marks: Vec<bool> = unmarked(g.func_count());
    mark_calls(g, root, &mut marks);
    let mut lo: usize = g.func_count();
    while lo > 0
        invariant
            lo <= funcs.len(),
            g.wf(),
            g.has(root),
            nodes == g.nodes(),
            funcs == g.funcs(),
            r == root.index,
            marks@.len() == funcs.len(),
            forall|f: int|
                0 <= f < funcs.len() ==> #[trigger] marks@[f] == needed_above(
                    nodes,
                    funcs,
                    r,
                    lo as int,
                    f,
                ),
        decreases lo,
    {
        lo -= 1;
        let ghost before = marks@;
        proof {
            lemma_needed_floor(nodes, funcs, r, lo + 1, lo as int);
            assert(func_ok(nodes, funcs, lo as int));
        }
        if marks[lo] {
            mark_calls(g, g.func(crate::lang::FuncId { index: lo }).result, &mut marks);
        }
        proof {
            assert forall|f: int| 0 <= f < funcs.len() implies #[trigger] marks@[f] == needed_above(
                nodes,
                funcs,
                r,
                lo as int,
                f,
            ) by {
                assert(before[f] == needed_above(nodes, funcs, r, lo + 1, f));
                lemma_needed_step(nodes, funcs, r, lo + 1, f);
            }
        }
    }
    proof {
        assert forall|f: int| 0 <= f < funcs.len() implies #[trigger] marks@[f] == needed(
            nodes,
            funcs,
            r,
            f,
        ) by {
            lemma_needed_floor(nodes, funcs, r, 0, f);
        }
    }
    marks
}

} // verus!
