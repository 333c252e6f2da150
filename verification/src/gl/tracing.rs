//! Tracing draw calls: which timer query measures which draw call, and
//! when the measurements of a frame are complete.
//!
//! The queries themselves live in the graphics context. Here a query is a
//! handle; what the context reads from a query is handed in as a reading.

use vstd::prelude::*;

verus! {

/// The kind of primitive that a draw call assembles.
#[derive(Debug, Clone, Copy, PartialEq, Eq, Structural, Hash)]
pub enum PrimitiveMode {
    Points,
    Lines,
    LineStrip,
    LineLoop,
    Triangles,
    TriangleStrip,
    TriangleFan,
}

/// The indices that a draw call draws: from `start` up to `end`, which is
/// not among them.
#[derive(Debug, Clone, Copy, PartialEq, Eq, Structural, Hash)]
pub struct IndexRange {
    pub start: usize,
    pub end: usize,
}

/// Handle of a timer query of the graphics context.
#[derive(Debug, Clone, Copy, PartialEq, Eq, Structural, Hash)]
pub struct TimerQueryId {
    pub id: u64,
}

/// What the graphics context read from a timer query: whether its result
/// is available, and the measured time in nanoseconds if it has one.
#[derive(Debug, Clone, Copy, PartialEq, Eq, Structural, Hash)]
pub struct QueryReading {
    pub available: bool,
    pub duration: Option<u64>,
}

/// What a draw call drew.
#[derive(Debug, Clone, PartialEq, Eq)]
pub struct DrawCallInfo {
    pub vertex_shader_name: String,
    pub fragment_shader_name: String,
    pub vertex_data_lens: Vec<usize>,
    pub element_data_len: Option<usize>,
    pub mode: PrimitiveMode,
    pub index_range: IndexRange,
    pub num_instances: usize,
}

/// A draw call and the time it took in nanoseconds, if it was measured.
#[derive(Debug, Clone, PartialEq, Eq)]
pub struct DrawCallTrace {
    pub info: DrawCallInfo,
    pub duration: Option<u64>,
}

/// The draw calls of one frame.
#[derive(Debug, Clone, PartialEq, Eq)]
pub struct FrameTrace {
    pub draw_calls: Vec<DrawCallTrace>,
}

/// A draw call and the query that measures it, if any.
#[derive(Debug, Clone, PartialEq, Eq)]
pub struct DrawCall {
    pub info: DrawCallInfo,
    pub query: Option<TimerQueryId>,
}

/// Whether the measurements of all draw calls are available. Reading
/// `i` belongs to draw call `i`; a draw call without query needs none.
pub open spec fn all_available(calls: Seq<DrawCall>, readings: Seq<QueryReading>) -> bool {
    forall|i: int|
        0 <= i < calls.len() ==> (#[trigger] calls[i]).query is None || (i < readings.len()
            && readings[i].available)
}

/// The trace of draw call `i`.
pub open spec fn trace_of(calls: Seq<DrawCall>, readings: Seq<QueryReading>, i: int) -> DrawCallTrace {
    DrawCallTrace {
        info: calls[i].info,
        duration: if calls[i].query is Some && i < readings.len() {
            readings[i].duration
        } else {
            None
        },
    }
}

/// The queries of the first `k` draw calls, in order.
pub open spec fn queries_of(calls: Seq<DrawCall>, k: nat) -> Seq<TimerQueryId>
    decreases k,
{
    if k == 0 {
        Seq::empty()
    } else {
        let front = queries_of(calls, (k - 1) as nat);
        match calls[k - 1].query {
            Some(q) => front.push(q),
            None => front,
        }
    }
}

/// The elements of a vector in reverse order.
fn reversed(v: Vec<DrawCall>) -> (r: Vec<DrawCall>)
    ensures
        r@.len() == v@.len(),
        forall|i: int| 0 <= i < v@.len() ==> r@[i] == v@[v@.len() - 1 - i],
{
    let mut v = v;
    let ghost all = v@;
    let mut r: Vec<DrawCall> = Vec::new();
    while v.len() > 0
        invariant
            v@.len() + r@.len() == all.len(),
            v@ == all.subrange(0, v@.len() as int),
            forall|i: int| 0 <= i < r@.len() ==> r@[i] == all[all.len() - 1 - i],
        decreases v@.len(),
    {
        let last = v.pop();
        match last {
            Some(x) => {
                r.push(x);
            },
            None => {},
        }
    }
    r
}

/// The bookkeeping of traced draw calls over frames.
pub struct Tracing {
    query_cache: Vec<TimerQueryId>,
    last_draw_calls: Vec<DrawCall>,
    draw_calls: Vec<DrawCall>,
}

impl Tracing {
    /// The queries that are free to be used again; the last is used first.
    pub closed spec fn cache(&self) -> Seq<TimerQueryId> {
        self.query_cache@
    }

    /// The draw calls of the frame before the current one.
    pub closed spec fn last(&self) -> Seq<DrawCall> {
        self.last_draw_calls@
    }

    /// The draw calls of the current frame so far.
    pub closed spec fn current(&self) -> Seq<DrawCall> {
        self.draw_calls@
    }

    /// A tracing that has seen no draw call.
    pub fn new() -> (r: Tracing)
        ensures
            r.cache().len() == 0,
            r.last().len() == 0,
            r.current().len() == 0,
    {
        Tracing { query_cache: Vec::new(), last_draw_calls: Vec::new(), draw_calls: Vec::new() }
    }

    /// The queries of the draw calls of the last frame, in order: what
    /// the readings for `start_frame` are to be taken from.
    pub fn pending_queries(&self) -> (r: Vec<Option<TimerQueryId>>)
        ensures
            r@.len() == self.last().len(),
            forall|i: int| 0 <= i < r@.len() ==> r@[i] == self.last()[i].query,
    {
        let mut r: Vec<Option<TimerQueryId>> = Vec::new();
        let mut i: usize = 0;
        while i < self.last_draw_calls.len()
            invariant
                i <= self.last_draw_calls@.len(),
                r@.len() == i,
                forall|j: int| 0 <= j < i ==> r@[j] == self.last_draw_calls@[j].query,
            decreases self.last_draw_calls@.len() - i,
        {
            r.push(self.last_draw_calls[i].query);
            i += 1;
        }
        r
    }

    /// Whether the next draw call needs a new query because none is free.
    pub fn needs_query(&self) -> (r: bool)
        ensures
            r == (self.cache().len() == 0),
    {
        self.query_cache.len() == 0
    }

    /// Starts a frame. If the measurements of the last frame are all
    /// available, its trace is returned, its queries become free in the
    /// order of its draw calls, and the frame that ends becomes the last
    /// frame. Otherwise the frame that ends is dropped and nothing else
    /// changes.
    pub fn start_frame(&mut self, readings: &Vec<QueryReading>) -> (r: Option<FrameTrace>)
        ensures
            final(self).current().len() == 0,
            match r {
                Some(frame) => {
                    &&& all_available(old(self).last(), readings@)
                    &&& frame.draw_calls@ == Seq::new(
                        old(self).last().len(),
                        |i: int| trace_of(old(self).last(), readings@, i),
                    )
                    &&& final(self).cache() == old(self).cache() + queries_of(
                        old(self).last(),
                        old(self).last().len(),
                    )
                    &&& final(self).last() == old(self).current()
                },
                None => {
                    &&& !all_available(old(self).last(), readings@)
                    &&& final(self).cache() == old(self).cache()
                    &&& final(self).last() == old(self).last()
                },
            },
    {
        let mut i: usize = 0;
        while i < self.last_draw_calls.len()
            invariant
                i <= self.last_draw_calls@.len(),
                *self == *old(self),
                forall|j: int|
                    0 <= j < i ==> (#[trigger] self.last_draw_calls@[j]).query is None || (j
                        < readings@.len() && readings@[j].available),
            decreases self.last_draw_calls@.len() - i,
        {
            let ready: bool = match self.last_draw_calls[i].query {
                None => true,
                Some(_) => i < readings.len() && readings[i].available,
            };
            if !ready {
                self.draw_calls.clear();
                return None;
            }
            i += 1;
        }
        let ghost calls = self.last_draw_calls@;
        let ghost cache = self.query_cache@;
        let count: usize = self.last_draw_calls.len();
        let mut taken: Vec<DrawCall> = Vec::new();
        std::mem::swap(&mut taken, &mut self.last_draw_calls);
        let mut rest: Vec<DrawCall> = reversed(taken);
        let mut draw_calls: Vec<DrawCallTrace> = Vec::new();
        let mut k: usize = 0;
        while k < count
            invariant
                k <= count,
                count == calls.len(),
                rest@.len() == count - k,
                forall|j: int| 0 <= j < rest@.len() ==> rest@[j] == calls[count - 1 - j],
                draw_calls@.len() == k,
                forall|j: int| 0 <= j < k ==> draw_calls@[j] == trace_of(calls, readings@, j),
                self.query_cache@ == cache + queries_of(calls, k as nat),
                self.draw_calls@ == old(self).draw_calls@,
                self.last_draw_calls@.len() == 0,
            decreases count - k,
        {
            let call = rest.pop();
            match call {
                Some(call) => {
                    let duration: Option<u64> = match call.query {
                        Some(_) => if k < readings.len() {
                            readings[k].duration
                        } else {
                            None
                        },
                        None => None,
                    };
                    match call.query {
                        Some(q) => {
                            self.query_cache.push(q);
                        },
                        None => {},
                    }
                    draw_calls.push(DrawCallTrace { info: call.info, duration });
                },
                None => {},
            }
            k += 1;
        }
        std::mem::swap(&mut self.draw_calls, &mut self.last_draw_calls);
        Some(FrameTrace { draw_calls })
    }

    /// Records a draw call of the current frame and gives the query that
    /// is to measure it: the free query that was freed last, or, if none
    /// is free, the fresh one that was handed in.
    pub fn start_draw_call(&mut self, info: DrawCallInfo, fresh: Option<TimerQueryId>) -> (r: Option<
        TimerQueryId,
    >)
        ensures
            final(self).last() == old(self).last(),
            final(self).current() == old(self).current().push(DrawCall { info, query: r }),
            old(self).cache().len() > 0 ==> r == Some(old(self).cache().last()) && final(self).cache() == old(self).cache().drop_last(),
            old(self).cache().len() == 0 ==> r == fresh && final(self).cache() == old(self).cache(),
    {
        let query: Option<TimerQueryId> = match self.query_cache.pop() {
            Some(q) => Some(q),
            None => fresh,
        };
        self.draw_calls.push(DrawCall { info, query });
        query
    }
}

} // verus!
