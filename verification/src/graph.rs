//! The device graph and its readiness-driven evaluation engine.
//!
//! A `DeviceGraph` owns devices (nodes) and gain-weighted wires (edges).
//! `process` evaluates the whole graph for one sample tick without any
//! pre-computed topological order: sources are read off the external input
//! buffer first, then a fixed-point pass repeatedly evaluates every node
//! whose predecessors are all cached, and finally the sinks are copied into
//! the external output buffer. The pass is bounded: on a cyclic graph it
//! reports `CycleDetected` instead of looping forever, and `process` returns
//! `Ok` exactly on acyclic graphs.

use crate::device::device_process;
use crate::device::eval_dev;
use crate::device::zeros64;
use crate::device::Device;
use crate::scalar::mul_bits;
use crate::scalar::mul_bits_of;
use crate::GraphError;
use vstd::prelude::*;

verus! {

/// A stable handle to a node, assigned by the owning graph at insertion.
#[derive(Clone, Copy, Debug, PartialEq, Eq, Structural, Hash)]
pub struct NodeIndex(pub usize);

/// A stable handle to an edge, assigned by the owning graph at insertion.
#[derive(Clone, Copy, Debug, PartialEq, Eq, Structural, Hash)]
pub struct EdgeIndex(pub usize);

/// A directed, gain-weighted wire from one node's output port to another
/// node's input port. `amp` is the bit pattern of the binary64 gain applied
/// multiplicatively when the sample is routed.
pub struct AudioConnection {
    pub id: EdgeIndex,
    pub source: NodeIndex,
    pub source_out_idx: usize,
    pub sink: NodeIndex,
    pub sink_in_idx: usize,
    pub amp: u64,
}

/// A device together with its display name and its own graph handle, which
/// is written back immediately after insertion so the wrapper is
/// self-describing.
pub struct OwnedDevice {
    pub name: String,
    pub dev: Device,
    pub id: NodeIndex,
}

impl OwnedDevice {
    pub fn n_audio_inputs(&self) -> (n: usize)
        ensures
            n == self.dev.spec_n_in(),
    {
        self.dev.n_audio_inputs()
    }

    pub fn n_audio_outputs(&self) -> (n: usize)
        ensures
            n == self.dev.spec_n_out(),
    {
        self.dev.n_audio_outputs()
    }

    /// Run the owned device for one tick (the wrapper adds nothing of its
    /// own: it delegates to the device it owns).
    pub fn process(
        &self,
        sample_clock: u64,
        sample_rate: u64,
        audio_inputs: &Vec<u64>,
        audio_outputs: &mut Vec<u64>,
    )
        requires
            audio_inputs@.len() == 64,
            old(audio_outputs)@.len() == 64,
            forall|k: int| 0 <= k < 64 ==> old(audio_outputs)@[k] == 0u64,
        ensures
            final(audio_outputs)@ == eval_dev(self.dev, sample_clock, sample_rate, audio_inputs@),
    {
        self.dev.process(sample_clock, sample_rate, audio_inputs, audio_outputs)
    }
}

/// A directed graph of owned devices and gain-weighted connections, plus the
/// per-evaluation-pass output cache (one 64-slot buffer per resolved node),
/// which is rebuilt from scratch by every `process` call.
pub struct DeviceGraph {
    pub nodes: Vec<OwnedDevice>,
    pub edges: Vec<AudioConnection>,
    pub cached_outputs: Vec<Option<Vec<u64>>>,
}

impl DeviceGraph {
    /// The number of nodes.
    pub open spec fn n(self) -> int {
        self.nodes@.len() as int
    }

    /// An edge is well formed when its endpoints exist and its port indices
    /// are in range for the endpoint devices.
    pub open spec fn edge_wf(self, e: AudioConnection) -> bool {
        &&& e.source.0 < self.nodes@.len()
        &&& e.sink.0 < self.nodes@.len()
        &&& e.source_out_idx < self.nodes@[e.source.0 as int].dev.spec_n_out()
        &&& e.sink_in_idx < self.nodes@[e.sink.0 as int].dev.spec_n_in()
    }

    /// Well-formedness: every edge is in range, every node and edge carries
    /// the handle it was assigned at insertion, and every device fits the
    /// hard 64-channel capacity. Constructors establish this and every
    /// method preserves it.
    pub open spec fn wf(self) -> bool {
        &&& forall|k: int|
            0 <= k < self.edges@.len() ==> self.edge_wf(#[trigger] self.edges@[k])
        &&& forall|k: int|
            0 <= k < self.edges@.len() ==> (#[trigger] self.edges@[k]).id.0 == k
        &&& forall|i: int|
            0 <= i < self.nodes@.len() ==> (#[trigger] self.nodes@[i]).id.0 == i
        &&& forall|i: int|
            0 <= i < self.nodes@.len() ==> (#[trigger] self.nodes@[i]).dev.spec_n_in()
                <= crate::MAX_AUDIO_INPUTS_PER_DEVICE && self.nodes@[i].dev.spec_n_out()
                <= crate::MAX_AUDIO_OUTPUTS_PER_DEVICE
    }

    /// Whether node `i` has at least one incoming edge.
    pub open spec fn has_incoming(self, i: int) -> bool {
        exists|k: int| 0 <= k < self.edges@.len() && (#[trigger] self.edges@[k]).sink.0 == i
    }

    /// Whether node `i` has at least one outgoing edge.
    pub open spec fn has_outgoing(self, i: int) -> bool {
        exists|k: int| 0 <= k < self.edges@.len() && (#[trigger] self.edges@[k]).source.0 == i
    }

    /// The external input channel cursor of node `i`: the sum of the input
    /// counts of all source nodes (nodes with no incoming edge) before `i`,
    /// in node-insertion order.
    pub open spec fn in_cursor(self, i: int) -> nat
        decreases i,
    {
        if i <= 0 {
            0
        } else {
            self.in_cursor(i - 1) + if !self.has_incoming(i - 1) {
                self.nodes@[i - 1].dev.spec_n_in()
            } else {
                0
            }
        }
    }

    /// The external output channel cursor of node `i`: the sum of the output
    /// counts of all sink nodes (nodes with no outgoing edge) before `i`.
    pub open spec fn out_cursor(self, i: int) -> nat
        decreases i,
    {
        if i <= 0 {
            0
        } else {
            self.out_cursor(i - 1) + if !self.has_outgoing(i - 1) {
                self.nodes@[i - 1].dev.spec_n_out()
            } else {
                0
            }
        }
    }

    /// A composite graph's own input count: the sum of `n_audio_inputs` over
    /// its zero-incoming-edge nodes, in node-insertion order.
    pub open spec fn spec_n_audio_inputs(self) -> nat {
        self.in_cursor(self.n())
    }

    /// A composite graph's own output count: the sum of `n_audio_outputs`
    /// over its zero-outgoing-edge nodes, in node-insertion order.
    pub open spec fn spec_n_audio_outputs(self) -> nat {
        self.out_cursor(self.n())
    }

    pub fn new() -> (g: DeviceGraph)
        ensures
            g.wf(),
            g.nodes@.len() == 0,
            g.edges@.len() == 0,
    {
        DeviceGraph { nodes: Vec::new(), edges: Vec::new(), cached_outputs: Vec::new() }
    }

    /// Insert a device under a display name; the returned handle is written
    /// back into the owned wrapper.
    pub fn add_device(&mut self, name: &str, dev: Device) -> (id: NodeIndex)
        requires
            old(self).wf(),
            dev.spec_n_in() <= crate::MAX_AUDIO_INPUTS_PER_DEVICE,
            dev.spec_n_out() <= crate::MAX_AUDIO_OUTPUTS_PER_DEVICE,
            old(self).nodes@.len() < usize::MAX,
        ensures
            final(self).wf(),
            id.0 == old(self).nodes@.len(),
            final(self).nodes@.len() == old(self).nodes@.len() + 1,
            forall|j: int|
                0 <= j < old(self).nodes@.len() ==> final(self).nodes@[j] == old(self).nodes@[j],
            final(self).nodes@[id.0 as int].name@ == name@,
            final(self).nodes@[id.0 as int].dev == dev,
            final(self).nodes@[id.0 as int].id == id,
            final(self).edges == old(self).edges,
            final(self).cached_outputs == old(self).cached_outputs,
    {
        let id = NodeIndex(self.nodes.len());
        let owned = OwnedDevice { name: name.to_owned(), dev, id };
        self.nodes.push(owned);
        assert forall|k: int| 0 <= k < self.edges@.len() implies self.edge_wf(
            #[trigger] self.edges@[k],
        ) by {
            assert(old(self).edge_wf(old(self).edges@[k]));
        }
        id
    }

    /// Wire an output port of `source` into an input port of `sink`, scaled
    /// by the binary64 gain whose bit pattern is `amp`. Port indices out of
    /// range for the endpoint devices are a programming error and are ruled
    /// out up front.
    pub fn connect(
        &mut self,
        source: NodeIndex,
        source_out_idx: usize,
        sink: NodeIndex,
        sink_in_idx: usize,
        amp: u64,
    ) -> (id: EdgeIndex)
        requires
            old(self).wf(),
            source.0 < old(self).nodes@.len(),
            sink.0 < old(self).nodes@.len(),
            source_out_idx < old(self).nodes@[source.0 as int].dev.spec_n_out(),
            sink_in_idx < old(self).nodes@[sink.0 as int].dev.spec_n_in(),
            old(self).edges@.len() < usize::MAX,
        ensures
            final(self).wf(),
            id.0 == old(self).edges@.len(),
            final(self).edges@ == old(self).edges@.push(
                (AudioConnection { id, source, source_out_idx, sink, sink_in_idx, amp }),
            ),
            final(self).nodes == old(self).nodes,
            final(self).cached_outputs == old(self).cached_outputs,
    {
        let id = EdgeIndex(self.edges.len());
        let con = AudioConnection { id, source, source_out_idx, sink, sink_in_idx, amp };
        self.edges.push(con);
        id
    }

    /// Whether node `i` has at least one incoming edge (linear scan).
    fn has_incoming_exec(&self, i: usize) -> (r: bool)
        ensures
            r == self.has_incoming(i as int),
    {
        let mut k: usize = 0;
        while k < self.edges.len()
            invariant
                k <= self.edges@.len(),
                forall|j: int| 0 <= j < k ==> (#[trigger] self.edges@[j]).sink.0 != i,
            decreases self.edges@.len() - k,
        {
            if self.edges[k].sink.0 == i {
                return true;
            }
            k = k + 1;
        }
        false
    }

    /// Whether node `i` has at least one outgoing edge (linear scan).
    fn has_outgoing_exec(&self, i: usize) -> (r: bool)
        ensures
            r == self.has_outgoing(i as int),
    {
        let mut k: usize = 0;
        while k < self.edges.len()
            invariant
                k <= self.edges@.len(),
                forall|j: int| 0 <= j < k ==> (#[trigger] self.edges@[j]).source.0 != i,
            decreases self.edges@.len() - k,
        {
            if self.edges[k].source.0 == i {
                return true;
            }
            k = k + 1;
        }
        false
    }

    /// The composite graph's input count: the sum of the input counts of its
    /// source nodes, in node-insertion order.
    pub fn n_audio_inputs(&self) -> (r: usize)
        requires
            self.wf(),
            self.spec_n_audio_inputs() <= usize::MAX,
        ensures
            r == self.spec_n_audio_inputs(),
    {
        let mut sum: usize = 0;
        let mut i: usize = 0;
        while i < self.nodes.len()
            invariant
                self.wf(),
                i <= self.nodes@.len(),
                sum == self.in_cursor(i as int),
                self.spec_n_audio_inputs() <= usize::MAX,
            decreases self.nodes@.len() - i,
        {
            proof {
                self.lemma_in_cursor_mono(i + 1, self.n());
            }
            if !self.has_incoming_exec(i) {
                let n_in = self.nodes[i].dev.n_audio_inputs();
                sum = sum + n_in;
            }
            i = i + 1;
        }
        sum
    }

    /// The composite graph's output count: the sum of the output counts of
    /// its sink nodes, in node-insertion order.
    pub fn n_audio_outputs(&self) -> (r: usize)
        requires
            self.wf(),
            self.spec_n_audio_outputs() <= usize::MAX,
        ensures
            r == self.spec_n_audio_outputs(),
    {
        let mut sum: usize = 0;
        let mut i: usize = 0;
        while i < self.nodes.len()
            invariant
                self.wf(),
                i <= self.nodes@.len(),
                sum == self.out_cursor(i as int),
                self.spec_n_audio_outputs() <= usize::MAX,
            decreases self.nodes@.len() - i,
        {
            proof {
                self.lemma_out_cursor_mono(i + 1, self.n());
            }
            if !self.has_outgoing_exec(i) {
                let n_out = self.nodes[i].dev.n_audio_outputs();
                sum = sum + n_out;
            }
            i = i + 1;
        }
        sum
    }

    /// The input cursor never decreases along node order.
    pub proof fn lemma_in_cursor_mono(self, i: int, j: int)
        requires
            i <= j,
        ensures
            self.in_cursor(i) <= self.in_cursor(j),
        decreases j - i,
    {
        if i < j {
            self.lemma_in_cursor_mono(i, j - 1);
        }
    }

    /// The output cursor never decreases along node order.
    pub proof fn lemma_out_cursor_mono(self, i: int, j: int)
        requires
            i <= j,
        ensures
            self.out_cursor(i) <= self.out_cursor(j),
        decreases j - i,
    {
        if i < j {
            self.lemma_out_cursor_mono(i, j - 1);
        }
    }
}

impl DeviceGraph {
    /// The 64-slot input buffer of source node `i`: its span of the external
    /// input buffer, starting at its channel cursor, zero-padded to 64.
    pub open spec fn source_ins(self, audio_inputs: Seq<u64>, i: int) -> Seq<u64> {
        Seq::new(64, |k: int|
            if k < self.nodes@[i].dev.spec_n_in() {
                audio_inputs[self.in_cursor(i) + k]
            } else {
                0u64
            })
    }

    /// The 64-slot input buffer gathered for node `i` from the first `m`
    /// edges: each incoming edge whose source is cached routes
    /// `cached_source_output[source_out_idx] * amp` into slot `sink_in_idx`,
    /// later edges overwriting earlier ones; all other slots stay zero.
    pub open spec fn gathered_upto(
        self,
        cache: Seq<Option<Vec<u64>>>,
        i: int,
        m: int,
    ) -> Seq<u64>
        decreases m,
    {
        if m <= 0 {
            zeros64()
        } else {
            let prev = self.gathered_upto(cache, i, m - 1);
            let e = self.edges@[m - 1];
            if e.sink.0 == i && cache[e.source.0 as int] is Some {
                prev.update(
                    e.sink_in_idx as int,
                    mul_bits_of(e.amp, cache[e.source.0 as int]->Some_0@[e.source_out_idx as int]),
                )
            } else {
                prev
            }
        }
    }

    /// The full gathered input buffer of node `i`.
    pub open spec fn gathered(self, cache: Seq<Option<Vec<u64>>>, i: int) -> Seq<u64> {
        self.gathered_upto(cache, i, self.edges@.len() as int)
    }

    /// A cache entry is correct: a cached source node holds the evaluation
    /// of its span of the external inputs, and a cached non-source node has
    /// all its predecessors cached and holds the evaluation of its gathered
    /// inputs.
    pub open spec fn entry_ok(
        self,
        cache: Seq<Option<Vec<u64>>>,
        audio_inputs: Seq<u64>,
        sample_clock: u64,
        sample_rate: u64,
        i: int,
    ) -> bool {
        cache[i] matches Some(out) ==> {
            &&& out@.len() == 64
            &&& !self.has_incoming(i) ==> out@ == eval_dev(
                self.nodes@[i].dev,
                sample_clock,
                sample_rate,
                self.source_ins(audio_inputs, i),
            )
            &&& self.has_incoming(i) ==> {
                &&& forall|k: int|
                    0 <= k < self.edges@.len() && (#[trigger] self.edges@[k]).sink.0 == i
                        ==> cache[self.edges@[k].source.0 as int] is Some
                &&& out@ == eval_dev(
                    self.nodes@[i].dev,
                    sample_clock,
                    sample_rate,
                    self.gathered(cache, i),
                )
            }
        }
    }

    /// Every cache entry is correct.
    pub open spec fn cache_ok(
        self,
        cache: Seq<Option<Vec<u64>>>,
        audio_inputs: Seq<u64>,
        sample_clock: u64,
        sample_rate: u64,
    ) -> bool {
        &&& cache.len() == self.n()
        &&& forall|i: int|
            0 <= i < self.n() ==> self.entry_ok(cache, audio_inputs, sample_clock, sample_rate, i)
    }

    /// How many of the first `m` cache slots are filled.
    pub open spec fn count_some(cache: Seq<Option<Vec<u64>>>, m: int) -> nat
        decreases m,
    {
        if m <= 0 {
            0
        } else {
            Self::count_some(cache, m - 1) + if cache[m - 1] is Some {
                1nat
            } else {
                0nat
            }
        }
    }

    /// A ranking respects the graph when every edge goes from a lower to a
    /// higher rank.
    pub open spec fn rank_respects(self, rank: spec_fn(int) -> nat) -> bool {
        forall|k: int|
            0 <= k < self.edges@.len() ==> rank((#[trigger] self.edges@[k]).source.0 as int) < rank(
                self.edges@[k].sink.0 as int,
            )
    }

    /// The graph is acyclic exactly when some ranking respects it.
    pub open spec fn acyclic(self) -> bool {
        exists|rank: spec_fn(int) -> nat| self.rank_respects(rank)
    }

    /// A partial rank assignment is consistent with a cache when every
    /// cached node is ranked below the counter and every edge into a cached
    /// node comes from a cached node of strictly lower rank.
    pub open spec fn rank_ok(
        self,
        cache: Seq<Option<Vec<u64>>>,
        rank: Map<int, nat>,
        ctr: nat,
    ) -> bool {
        &&& forall|i: int|
            0 <= i < self.n() && (#[trigger] cache[i]) is Some ==> rank.dom().contains(i)
                && rank[i] < ctr
        &&& forall|k: int|
            0 <= k < self.edges@.len() && cache[(#[trigger] self.edges@[k]).sink.0 as int] is Some
                ==> cache[self.edges@[k].source.0 as int] is Some && rank[
                self.edges@[k].source.0 as int
            ] < rank[self.edges@[k].sink.0 as int]
    }

    /// Counting filled slots never exceeds the number of slots; the count
    /// falls short of the window exactly when some slot in it is empty.
    proof fn lemma_count_some_le(cache: Seq<Option<Vec<u64>>>, m: int)
        requires
            0 <= m <= cache.len(),
        ensures
            Self::count_some(cache, m) <= m,
            Self::count_some(cache, m) < m ==> exists|j: int| 0 <= j < m && cache[j] is None,
            (exists|j: int| 0 <= j < m && cache[j] is None) ==> Self::count_some(cache, m) < m,
        decreases m,
    {
        if m > 0 {
            Self::lemma_count_some_le(cache, m - 1);
            if exists|j: int| 0 <= j < m && cache[j] is None {
                let j = choose|j: int| 0 <= j < m && cache[j] is None;
                if j < m - 1 {
                    assert(Self::count_some(cache, m - 1) < m - 1);
                }
            }
        }
    }

    /// An all-empty cache counts zero filled slots.
    proof fn lemma_count_some_none(cache: Seq<Option<Vec<u64>>>, m: int)
        requires
            0 <= m <= cache.len(),
            forall|j: int| 0 <= j < m ==> cache[j] is None,
        ensures
            Self::count_some(cache, m) == 0,
        decreases m,
    {
        if m > 0 {
            Self::lemma_count_some_none(cache, m - 1);
        }
    }

    /// Filling an empty slot raises the count of every window that contains
    /// it by one and leaves other windows unchanged.
    proof fn lemma_count_some_update(
        cache: Seq<Option<Vec<u64>>>,
        i: int,
        v: Option<Vec<u64>>,
        m: int,
    )
        requires
            0 <= i < cache.len(),
            0 <= m <= cache.len(),
            cache[i] is None,
            v is Some,
        ensures
            Self::count_some(cache.update(i, v), m) == Self::count_some(cache, m) + if i < m {
                1int
            } else {
                0int
            },
        decreases m,
    {
        if m > 0 {
            Self::lemma_count_some_update(cache, i, v, m - 1);
        }
    }

    /// Gathering is stable under cache growth: adding entries to slots that
    /// were empty does not change the gathered inputs of a node whose
    /// predecessors were already cached.
    proof fn lemma_gathered_stable(
        self,
        c1: Seq<Option<Vec<u64>>>,
        c2: Seq<Option<Vec<u64>>>,
        i: int,
        m: int,
    )
        requires
            self.wf(),
            c1.len() == self.n(),
            c2.len() == self.n(),
            forall|j: int| 0 <= j < self.n() && c1[j] is Some ==> c2[j] == c1[j],
            forall|k: int|
                0 <= k < self.edges@.len() && (#[trigger] self.edges@[k]).sink.0 == i ==> c1[
                    self.edges@[k].source.0 as int
                ] is Some,
            0 <= m <= self.edges@.len(),
        ensures
            self.gathered_upto(c2, i, m) == self.gathered_upto(c1, i, m),
        decreases m,
    {
        if m > 0 {
            self.lemma_gathered_stable(c1, c2, i, m - 1);
        }
    }

    /// A stalled cache refutes every ranking: if every uncached node has an
    /// uncached predecessor, then under any respectful ranking every
    /// uncached node would need rank at least `k`, for every `k`.
    proof fn lemma_stall_refutes_rank(
        self,
        cache: Seq<Option<Vec<u64>>>,
        rank: spec_fn(int) -> nat,
        k: nat,
    )
        requires
            self.wf(),
            cache.len() == self.n(),
            forall|j: int|
                0 <= j < self.n() && cache[j] is None ==> exists|e: int|
                    0 <= e < self.edges@.len() && (#[trigger] self.edges@[e]).sink.0 == j && cache[
                        self.edges@[e].source.0 as int
                    ] is None,
            self.rank_respects(rank),
        ensures
            forall|j: int| 0 <= j < self.n() && cache[j] is None ==> rank(j) >= k,
        decreases k,
    {
        if k > 0 {
            self.lemma_stall_refutes_rank(cache, rank, (k - 1) as nat);
            assert forall|j: int| 0 <= j < self.n() && cache[j] is None implies rank(j) >= k by {
                let e = choose|e: int|
                    0 <= e < self.edges@.len() && (#[trigger] self.edges@[e]).sink.0 == j && cache[
                        self.edges@[e].source.0 as int
                    ] is None;
                let s = self.edges@[e].source.0 as int;
                assert(rank(s) >= k - 1);
                assert(rank(s) < rank(j));
            }
        }
    }

    /// A stalled, incomplete cache proves the graph cyclic.
    proof fn lemma_stall_not_acyclic(self, cache: Seq<Option<Vec<u64>>>)
        requires
            self.wf(),
            cache.len() == self.n(),
            exists|j: int| 0 <= j < self.n() && cache[j] is None,
            forall|j: int|
                0 <= j < self.n() && cache[j] is None ==> exists|e: int|
                    0 <= e < self.edges@.len() && (#[trigger] self.edges@[e]).sink.0 == j && cache[
                        self.edges@[e].source.0 as int
                    ] is None,
        ensures
            !self.acyclic(),
    {
        if self.acyclic() {
            let rank = choose|rank: spec_fn(int) -> nat| self.rank_respects(rank);
            let j = choose|j: int| 0 <= j < self.n() && cache[j] is None;
            self.lemma_stall_refutes_rank(cache, rank, rank(j) + 1);
            assert(rank(j) >= rank(j) + 1);
        }
    }

    /// A complete cache with a consistent rank assignment proves the graph
    /// acyclic: the order in which the scheduler resolved the nodes is a
    /// respectful ranking.
    proof fn lemma_complete_acyclic(
        self,
        cache: Seq<Option<Vec<u64>>>,
        rank: Map<int, nat>,
        ctr: nat,
    )
        requires
            self.wf(),
            cache.len() == self.n(),
            forall|i: int| 0 <= i < self.n() ==> cache[i] is Some,
            self.rank_ok(cache, rank, ctr),
        ensures
            self.acyclic(),
    {
        let rankf = |i: int| if rank.dom().contains(i) { rank[i] } else { 0nat };
        assert forall|k: int| 0 <= k < self.edges@.len() implies rankf(
            (#[trigger] self.edges@[k]).source.0 as int,
        ) < rankf(self.edges@[k].sink.0 as int) by {
            let s = self.edges@[k].source.0 as int;
            let t = self.edges@[k].sink.0 as int;
            assert(cache[t] is Some);
            assert(cache[s] is Some);
        }
        assert(self.rank_respects(rankf));
    }
}

/// A fresh 64-slot zero buffer.
fn zeros_vec() -> (v: Vec<u64>)
    ensures
        v@.len() == 64,
        forall|k: int| 0 <= k < 64 ==> v@[k] == 0u64,
{
    let mut v: Vec<u64> = Vec::new();
    let mut k: usize = 0;
    while k < 64
        invariant
            v@.len() == k,
            k <= 64,
            forall|j: int| 0 <= j < k ==> v@[j] == 0u64,
        decreases 64 - k,
    {
        v.push(0u64);
        k = k + 1;
    }
    v
}

/// Copy `count` samples from `out` into `dst` starting at `start`, leaving
/// every other slot of `dst` unchanged.
fn copy_span(dst: &mut Vec<u64>, out: &Vec<u64>, start: usize, count: usize)
    requires
        start + count <= old(dst)@.len(),
        count <= out@.len(),
    ensures
        final(dst)@.len() == old(dst)@.len(),
        forall|q: int| 0 <= q < count ==> final(dst)@[start + q] == out@[q],
        forall|p: int|
            0 <= p < old(dst)@.len() && !(start <= p < start + count) ==> final(dst)@[p] == old(
                dst,
            )@[p],
{
    let total = dst.len();
    let mut t: usize = 0;
    while t < count
        invariant
            t <= count,
            total == dst@.len(),
            start + count <= dst@.len(),
            count <= out@.len(),
            dst@.len() == old(dst)@.len(),
            forall|q: int| 0 <= q < t ==> dst@[start + q] == out@[q],
            forall|p: int|
                0 <= p < dst@.len() && !(start <= p < start + t) ==> dst@[p] == old(dst)@[p],
        decreases count - t,
    {
        let v = out[t];
        dst[start + t] = v;
        t = t + 1;
    }
}

/// Read `count` samples from `src` starting at `start` into a fresh 64-slot
/// buffer, zero-padded.
fn take_span(src: &Vec<u64>, start: usize, count: usize) -> (v: Vec<u64>)
    requires
        start + count <= src@.len(),
        count <= 64,
    ensures
        v@.len() == 64,
        forall|q: int| 0 <= q < count ==> v@[q] == src@[start + q],
        forall|q: int| count <= q < 64 ==> v@[q] == 0u64,
{
    let total = src.len();
    let mut v: Vec<u64> = Vec::new();
    let mut k: usize = 0;
    while k < 64
        invariant
            total == src@.len(),
            v@.len() == k,
            k <= 64,
            count <= 64,
            start + count <= src@.len(),
            forall|q: int| 0 <= q < k && q < count ==> v@[q] == src@[start + q],
            forall|q: int| count <= q < k ==> v@[q] == 0u64,
        decreases 64 - k,
    {
        if k < count {
            let x = src[start + k];
            v.push(x);
        } else {
            v.push(0u64);
        }
        k = k + 1;
    }
    v
}

impl DeviceGraph {
    /// Gather the 64-slot input buffer of node `i2` from its incoming
    /// edges, or report an uncached predecessor.
    fn gather_inputs(&self, cache: &Vec<Option<Vec<u64>>>, i2: usize) -> (r: Option<Vec<u64>>)
        requires
            self.wf(),
            cache@.len() == self.n(),
            i2 < self.n(),
            forall|j: int|
                0 <= j < self.n() && (#[trigger] cache@[j]) is Some ==> cache@[j]->Some_0@.len()
                    == 64,
        ensures
            r matches Some(ins) ==> {
                &&& ins@.len() == 64
                &&& ins@ == self.gathered(cache@, i2 as int)
                &&& forall|e: int|
                    0 <= e < self.edges@.len() && (#[trigger] self.edges@[e]).sink.0 == i2
                        ==> cache@[self.edges@[e].source.0 as int] is Some
            },
            r is None ==> exists|e: int|
                0 <= e < self.edges@.len() && (#[trigger] self.edges@[e]).sink.0 == i2
                    && cache@[self.edges@[e].source.0 as int] is None,
    {
        let m = self.edges.len();
        let mut ins: Vec<u64> = zeros_vec();
        assert(ins@ =~= zeros64());
        let mut k: usize = 0;
        while k < m
            invariant
                self.wf(),
                m == self.edges@.len(),
                cache@.len() == self.n(),
                i2 < self.n(),
                forall|j: int|
                    0 <= j < self.n() && (#[trigger] cache@[j]) is Some ==> cache@[
                        j
                    ]->Some_0@.len() == 64,
                k <= m,
                ins@.len() == 64,
                ins@ == self.gathered_upto(cache@, i2 as int, k as int),
                forall|e: int|
                    0 <= e < k && (#[trigger] self.edges@[e]).sink.0 == i2 ==> cache@[
                        self.edges@[e].source.0 as int
                    ] is Some,
            decreases m - k,
        {
            if self.edges[k].sink.0 == i2 {
                let src = self.edges[k].source.0;
                match &cache[src] {
                    Some(out) => {
                        let v = mul_bits(self.edges[k].amp, out[self.edges[k].source_out_idx]);
                        let idx = self.edges[k].sink_in_idx;
                        ins[idx] = v;
                    },
                    None => {
                        return None;
                    },
                }
            }
            k = k + 1;
        }
        Some(ins)
    }
}

impl DeviceGraph {
    /// Evaluate the whole graph for one sample tick.
    ///
    /// The output cache is cleared, every source node is fed its span of the
    /// external input buffer, then a fixed-point pass repeatedly evaluates
    /// (in node-insertion order) every node whose predecessors are all
    /// cached, each incoming edge routing its source's cached output sample
    /// scaled by the edge gain. Once every node is cached, each sink node's
    /// output (truncated to its own output count) is copied to the external
    /// output buffer, and the control signals pass through unchanged.
    ///
    /// The call returns `Ok` exactly when the graph is acyclic; a round that
    /// resolves no node proves a cycle, which is reported as `CycleDetected`
    /// rather than looping forever, with the external buffers left
    /// untouched.
    #[verifier::rlimit(50)]
    pub fn process(
        &mut self,
        sample_clock: u64,
        sample_rate: u64,
        audio_inputs: &Vec<u64>,
        audio_outputs: &mut Vec<u64>,
        control_inputs: &Vec<u64>,
        control_outputs: &mut Vec<u64>,
    ) -> (r: Result<(), GraphError>)
        requires
            old(self).wf(),
            audio_inputs@.len() >= old(self).spec_n_audio_inputs(),
            old(audio_outputs)@.len() >= old(self).spec_n_audio_outputs(),
            old(control_outputs)@.len() == control_inputs@.len(),
        ensures
            final(self).nodes == old(self).nodes,
            final(self).edges == old(self).edges,
            final(audio_outputs)@.len() == old(audio_outputs)@.len(),
            final(control_outputs)@.len() == old(control_outputs)@.len(),
            r is Ok <==> old(self).acyclic(),
            r is Err ==> r->Err_0 == GraphError::CycleDetected,
            r is Ok ==> {
                let cache = final(self).cached_outputs@;
                &&& cache.len() == old(self).n()
                &&& forall|i: int| 0 <= i < old(self).n() ==> cache[i] is Some
                &&& old(self).cache_ok(cache, audio_inputs@, sample_clock, sample_rate)
                &&& forall|i: int, t: int|
                    0 <= i < old(self).n() && !old(self).has_outgoing(i)
                        && 0 <= t < old(self).nodes@[i].dev.spec_n_out()
                        ==> final(audio_outputs)@[old(self).out_cursor(i) + t]
                        == cache[i]->Some_0@[t]
                &&& forall|p: int|
                    old(self).spec_n_audio_outputs() <= p < final(audio_outputs)@.len()
                        ==> final(audio_outputs)@[p] == old(audio_outputs)@[p]
                &&& final(control_outputs)@ == control_inputs@
            },
            r is Err ==> *final(audio_outputs) == *old(audio_outputs) && *final(control_outputs)
                == *old(control_outputs),
    {
        let n = self.nodes.len();

        // Reset: a fresh, empty cache slot per node.
        let mut cache: Vec<Option<Vec<u64>>> = Vec::new();
        let mut i: usize = 0;
        while i < n
            invariant
                *self == *old(self),
                n == self.nodes@.len(),
                cache@.len() == i,
                i <= n,
                forall|j: int| 0 <= j < i ==> (#[trigger] cache@[j]) is None,
                audio_outputs@ == old(audio_outputs)@,
                control_outputs@ == old(control_outputs)@,
            decreases n - i,
        {
            cache.push(None);
            i = i + 1;
        }

        let ghost mut rank: Map<int, nat> = Map::empty();
        let ghost mut ctr: nat = 0;
        let mut cached_count: usize = 0;

        proof {
            Self::lemma_count_some_none(cache@, n as int);
        }

        // Source pass: feed each zero-incoming-edge node its span of the
        // external input buffer, in node-insertion order.
        let in_total = audio_inputs.len();
        let mut cursor: usize = 0;
        i = 0;
        while i < n
            invariant
                *self == *old(self),
                self.wf(),
                n == self.nodes@.len(),
                in_total == audio_inputs@.len(),
                audio_inputs@.len() >= self.spec_n_audio_inputs(),
                i <= n,
                cache@.len() == n,
                cursor == self.in_cursor(i as int),
                forall|j: int|
                    0 <= j < i ==> ((#[trigger] cache@[j]) is Some <==> !self.has_incoming(j)),
                forall|j: int| i <= j < n ==> (#[trigger] cache@[j]) is None,
                self.cache_ok(cache@, audio_inputs@, sample_clock, sample_rate),
                self.rank_ok(cache@, rank, ctr),
                cached_count == Self::count_some(cache@, n as int),
                cached_count <= i,
                audio_outputs@ == old(audio_outputs)@,
                control_outputs@ == old(control_outputs)@,
            decreases n - i,
        {
            proof {
                self.lemma_in_cursor_mono(i as int + 1, self.n());
            }
            if !self.has_incoming_exec(i) {
                let n_in = self.nodes[i].dev.n_audio_inputs();
                assert(cursor + n_in == self.in_cursor(i as int + 1));
                assert(cursor + n_in <= audio_inputs@.len());
                let ins = take_span(audio_inputs, cursor, n_in);
                assert(ins@ =~= self.source_ins(audio_inputs@, i as int));
                let mut outs: Vec<u64> = zeros_vec();
                device_process(&self.nodes[i].dev, sample_clock, sample_rate, &ins, &mut outs);
                let ghost c1 = cache@;
                let ghost outs_v = outs@;
                cache[i] = Some(outs);
                proof {
                    let c2 = cache@;
                    assert(c2[i as int] is Some && c2[i as int]->Some_0@ == outs_v);
                    assert forall|j: int|
                        0 <= j < self.n() implies self.entry_ok(
                        c2,
                        audio_inputs@,
                        sample_clock,
                        sample_rate,
                        j,
                    ) by {
                        if c2[j] is Some {
                            if j == i as int {
                                assert(!self.has_incoming(j));
                                assert(outs_v == eval_dev(
                                    self.nodes@[j].dev,
                                    sample_clock,
                                    sample_rate,
                                    ins@,
                                ));
                            } else {
                                assert(c1[j] == c2[j]);
                                assert(self.entry_ok(
                                    c1,
                                    audio_inputs@,
                                    sample_clock,
                                    sample_rate,
                                    j,
                                ));
                                if self.has_incoming(j) {
                                    self.lemma_gathered_stable(
                                        c1,
                                        c2,
                                        j,
                                        self.edges@.len() as int,
                                    );
                                }
                            }
                        }
                    }
                    Self::lemma_count_some_update(c1, i as int, c2[i as int], n as int);
                    let rank0 = rank;
                    let ctr0 = ctr;
                    rank = rank.insert(i as int, ctr);
                    ctr = ctr + 1;
                    assert forall|j: int|
                        0 <= j < self.n() && c2[j] is Some implies rank.dom().contains(j) && rank[j]
                            < ctr by {
                        if j != i as int {
                            assert(c1[j] is Some);
                            assert(self.rank_ok(c1, rank0, ctr0));
                            assert(rank0.dom().contains(j) && rank0[j] < ctr0);
                        }
                    }
                    assert forall|k2: int|
                        0 <= k2 < self.edges@.len()
                            && c2[(#[trigger] self.edges@[k2]).sink.0 as int] is Some
                            implies c2[self.edges@[k2].source.0 as int] is Some
                            && rank[self.edges@[k2].source.0 as int]
                            < rank[self.edges@[k2].sink.0 as int] by {
                        let t = self.edges@[k2].sink.0 as int;
                        assert(self.has_incoming(t));
                        assert(t != i as int);
                        assert(c1[t] is Some);
                    }
                }
                cursor = cursor + n_in;
                cached_count = cached_count + 1;
            }
            i = i + 1;
        }

        // Fixed-point pass: repeatedly evaluate, in node-insertion order,
        // every node whose predecessors are all cached. A full round that
        // resolves nothing proves a cycle.
        while cached_count < n
            invariant
                *self == *old(self),
                self.wf(),
                n == self.nodes@.len(),
                audio_inputs@.len() >= self.spec_n_audio_inputs(),
                cache@.len() == n,
                cached_count == Self::count_some(cache@, n as int),
                cached_count <= n,
                forall|j: int|
                    0 <= j < n && (#[trigger] cache@[j]) is None ==> self.has_incoming(j),
                self.cache_ok(cache@, audio_inputs@, sample_clock, sample_rate),
                self.rank_ok(cache@, rank, ctr),
                audio_outputs@ == old(audio_outputs)@,
                control_outputs@ == old(control_outputs)@,
            decreases n - cached_count,
        {
            let mut progress = false;
            let ghost c0 = cache@;
            let ghost count0 = cached_count as int;
            let mut i2: usize = 0;
            while i2 < n
                invariant
                    *self == *old(self),
                    self.wf(),
                    n == self.nodes@.len(),
                    audio_inputs@.len() >= self.spec_n_audio_inputs(),
                    i2 <= n,
                    cache@.len() == n,
                    cached_count == Self::count_some(cache@, n as int),
                    cached_count <= n,
                    forall|j: int|
                        0 <= j < n && (#[trigger] cache@[j]) is None ==> self.has_incoming(j),
                    self.cache_ok(cache@, audio_inputs@, sample_clock, sample_rate),
                    self.rank_ok(cache@, rank, ctr),
                    !progress ==> cache@ == c0 && cached_count == count0,
                    !progress ==> forall|j: int|
                        0 <= j < i2 && c0[j] is None ==> exists|e: int|
                            0 <= e < self.edges@.len() && (#[trigger] self.edges@[e]).sink.0 == j
                                && c0[self.edges@[e].source.0 as int] is None,
                    progress ==> cached_count > count0,
                    audio_outputs@ == old(audio_outputs)@,
                    control_outputs@ == old(control_outputs)@,
                decreases n - i2,
            {
                if cache[i2].is_none() {
                    proof {
                        assert forall|j: int|
                            0 <= j < self.n() && (#[trigger] cache@[j]) is Some implies cache@[
                            j
                        ]->Some_0@.len() == 64 by {
                            assert(self.entry_ok(
                                cache@,
                                audio_inputs@,
                                sample_clock,
                                sample_rate,
                                j,
                            ));
                        }
                    }
                    match self.gather_inputs(&cache, i2) {
                        Some(ins) => {
                            let mut outs: Vec<u64> = zeros_vec();
                            device_process(
                                &self.nodes[i2].dev,
                                sample_clock,
                                sample_rate,
                                &ins,
                                &mut outs,
                            );
                            let ghost c1 = cache@;
                            let ghost ins_v = ins@;
                            let ghost outs_v = outs@;
                            cache[i2] = Some(outs);
                            proof {
                                let c2 = cache@;
                                assert(c2[i2 as int] is Some && c2[i2 as int]->Some_0@ == outs_v);
                                self.lemma_gathered_stable(
                                    c1,
                                    c2,
                                    i2 as int,
                                    self.edges@.len() as int,
                                );
                                assert forall|j: int|
                                    0 <= j < self.n() implies self.entry_ok(
                                    c2,
                                    audio_inputs@,
                                    sample_clock,
                                    sample_rate,
                                    j,
                                ) by {
                                    if c2[j] is Some {
                                        if j == i2 as int {
                                            assert(self.has_incoming(j));
                                            assert(outs_v == eval_dev(
                                                self.nodes@[j].dev,
                                                sample_clock,
                                                sample_rate,
                                                ins_v,
                                            ));
                                            assert(ins_v == self.gathered(c1, j));
                                        } else {
                                            assert(c1[j] == c2[j]);
                                            assert(self.entry_ok(
                                                c1,
                                                audio_inputs@,
                                                sample_clock,
                                                sample_rate,
                                                j,
                                            ));
                                            if self.has_incoming(j) {
                                                self.lemma_gathered_stable(
                                                    c1,
                                                    c2,
                                                    j,
                                                    self.edges@.len() as int,
                                                );
                                            }
                                        }
                                    }
                                }
                                Self::lemma_count_some_update(
                                    c1,
                                    i2 as int,
                                    c2[i2 as int],
                                    n as int,
                                );
                                Self::lemma_count_some_le(c2, n as int);
                                let rank0 = rank;
                                let ctr0 = ctr;
                                rank = rank.insert(i2 as int, ctr);
                                ctr = ctr + 1;
                                assert forall|j: int|
                                    0 <= j < self.n() && c2[j] is Some implies rank.dom().contains(
                                    j,
                                ) && rank[j] < ctr by {
                                    if j != i2 as int {
                                        assert(c1[j] is Some);
                                        assert(self.rank_ok(c1, rank0, ctr0));
                                        assert(rank0.dom().contains(j) && rank0[j] < ctr0);
                                    }
                                }
                                assert forall|k2: int|
                                    0 <= k2 < self.edges@.len()
                                        && c2[(#[trigger] self.edges@[k2]).sink.0 as int] is Some
                                        implies c2[self.edges@[k2].source.0 as int] is Some
                                        && rank[self.edges@[k2].source.0 as int]
                                        < rank[self.edges@[k2].sink.0 as int] by {
                                    let s = self.edges@[k2].source.0 as int;
                                    let t = self.edges@[k2].sink.0 as int;
                                    if t == i2 as int {
                                        assert(c1[s] is Some);
                                    } else {
                                        assert(c1[t] is Some);
                                        assert(c1[s] is Some);
                                    }
                                }
                            }
                            progress = true;
                            cached_count = cached_count + 1;
                        },
                        None => {
                        },
                    }
                }
                i2 = i2 + 1;
            }
            if !progress {
                proof {
                    Self::lemma_count_some_le(c0, n as int);
                    self.lemma_stall_not_acyclic(c0);
                }
                self.cached_outputs = cache;
                return Err(GraphError::CycleDetected);
            }
        }

        // The cache is complete: the order in which the nodes were resolved
        // ranks the graph, so it is acyclic.
        proof {
            Self::lemma_count_some_le(cache@, n as int);
            assert forall|j: int| 0 <= j < n implies (#[trigger] cache@[j]) is Some by {
                if cache@[j] is None {
                    assert(Self::count_some(cache@, n as int) < n);
                }
            }
            self.lemma_complete_acyclic(cache@, rank, ctr);
        }

        // Control signals pass through the graph boundary unmodified.
        let mut t0: usize = 0;
        while t0 < control_inputs.len()
            invariant
                *self == *old(self),
                self.wf(),
                self.acyclic(),
                n == self.nodes@.len(),
                cache@.len() == n,
                forall|j: int| 0 <= j < n ==> (#[trigger] cache@[j]) is Some,
                self.cache_ok(cache@, audio_inputs@, sample_clock, sample_rate),
                audio_outputs@ == old(audio_outputs)@,
                t0 <= control_inputs@.len(),
                control_outputs@.len() == control_inputs@.len(),
                forall|q: int| 0 <= q < t0 ==> control_outputs@[q] == control_inputs@[q],
            decreases control_inputs@.len() - t0,
        {
            let v = control_inputs[t0];
            control_outputs[t0] = v;
            t0 = t0 + 1;
        }
        assert(control_outputs@ =~= control_inputs@);

        // Sink pass: copy each zero-outgoing-edge node's cached output,
        // truncated to its own output count, into the external output
        // buffer, in node-insertion order.
        let out_total = audio_outputs.len();
        let mut out_cur: usize = 0;
        i = 0;
        while i < n
            invariant
                *self == *old(self),
                self.wf(),
                self.acyclic(),
                n == self.nodes@.len(),
                out_total == audio_outputs@.len(),
                i <= n,
                cache@.len() == n,
                forall|j: int| 0 <= j < n ==> (#[trigger] cache@[j]) is Some,
                self.cache_ok(cache@, audio_inputs@, sample_clock, sample_rate),
                out_cur == self.out_cursor(i as int),
                audio_outputs@.len() == old(audio_outputs)@.len(),
                audio_outputs@.len() >= self.spec_n_audio_outputs(),
                forall|j: int, t: int|
                    0 <= j < i && !self.has_outgoing(j) && 0 <= t < self.nodes@[j].dev.spec_n_out()
                        ==> audio_outputs@[self.out_cursor(j) + t] == cache@[j]->Some_0@[t],
                forall|p: int|
                    self.out_cursor(i as int) <= p < audio_outputs@.len()
                        ==> audio_outputs@[p] == old(audio_outputs)@[p],
                control_outputs@ == control_inputs@,
            decreases n - i,
        {
            proof {
                self.lemma_out_cursor_mono(i as int + 1, self.n());
            }
            if !self.has_outgoing_exec(i) {
                let n_out = self.nodes[i].dev.n_audio_outputs();
                assert(out_cur + n_out == self.out_cursor(i as int + 1));
                assert(out_cur + n_out <= audio_outputs@.len());
                match &cache[i] {
                    Some(out) => {
                        assert(self.entry_ok(
                            cache@,
                            audio_inputs@,
                            sample_clock,
                            sample_rate,
                            i as int,
                        ));
                        assert(out@.len() == 64);
                        let ghost a1 = audio_outputs@;
                        copy_span(audio_outputs, out, out_cur, n_out);
                        assert forall|j: int, t: int|
                            0 <= j < i + 1 && !self.has_outgoing(j)
                                && 0 <= t < self.nodes@[j].dev.spec_n_out()
                                implies audio_outputs@[self.out_cursor(j) + t]
                                == cache@[j]->Some_0@[t] by {
                            if j < i {
                                self.lemma_out_cursor_mono(j + 1, i as int);
                                assert(self.out_cursor(j) + t < self.out_cursor(i as int));
                                assert(audio_outputs@[self.out_cursor(j) + t] == a1[self.out_cursor(
                                    j,
                                ) + t]);
                            }
                        }
                    },
                    None => {
                        assert(false);
                    },
                }
                out_cur = out_cur + n_out;
            }
            i = i + 1;
        }

        self.cached_outputs = cache;
        Ok(())
    }
}

impl DeviceGraph {
    /// For a graph whose single edge wires a source output port into a sink
    /// input port with gain `amp`, the sink's gathered input channel is
    /// exactly the source's cached output channel scaled by `amp` — for
    /// every sample clock, since gathering does not read the clock.
    pub proof fn lemma_single_wire_gain(self, cache: Seq<Option<Vec<u64>>>, e: AudioConnection)
        requires
            self.wf(),
            self.edges@.len() == 1,
            e == self.edges@[0],
            cache.len() == self.n(),
            cache[e.source.0 as int] is Some,
        ensures
            self.gathered(cache, e.sink.0 as int)[e.sink_in_idx as int] == mul_bits_of(
                e.amp,
                cache[e.source.0 as int]->Some_0@[e.source_out_idx as int],
            ),
    {
        assert(self.gathered_upto(cache, e.sink.0 as int, 0) == zeros64());
    }
}

impl Default for DeviceGraph {
    fn default() -> (g: DeviceGraph)
        ensures
            g.wf(),
            g.nodes@.len() == 0,
            g.edges@.len() == 0,
    {
        DeviceGraph::new()
    }
}

} // verus!
