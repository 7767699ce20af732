//! The graph builder: ergonomic construction of a processing-node graph.
//!
//! A `GraphBuilder` is an arena of node descriptors and connections; a
//! `Node` is a cheap, copyable handle (an index) into it. Operands and port
//! selectors are closed sums: an operand is a handle, a raw identifier or a
//! scalar literal (auto-materialized as a constant node); a port selector
//! is a numeric index or a declared name. Arithmetic sugar such as
//! `a.add(&mut gb, b)` instantiates the matching primitive-operation node
//! and wires its operands in, so graph programs read as expressions.

use crate::builtins::BuiltinNode;
use crate::graph::EdgeIndex;
use crate::graph::NodeIndex;
use crate::samplers::Sample;
use crate::GraphError;
use vstd::prelude::*;

verus! {

/// A declared input port: a name and an optional default value (the bit
/// pattern of a binary64 scalar).
pub struct InputSpec {
    pub name: String,
    pub default: Option<u64>,
}

/// A declared output port.
pub struct OutputSpec {
    pub name: String,
}

/// The primitive arithmetic and transcendental operation kinds that the
/// expression sugar can instantiate.
#[derive(Clone, Copy, Debug, PartialEq, Eq, Structural, Hash)]
pub enum OpKind {
    Add,
    Sub,
    Mul,
    Div,
    Rem,
    Powf,
    Atan2,
    Hypot,
    Max,
    Min,
    Neg,
    Abs,
    Sqrt,
    Cbrt,
    Ceil,
    Floor,
    Round,
    Sin,
    Cos,
    Tan,
    Asin,
    Acos,
    Atan,
    Recip,
    Signum,
    Fract,
}

/// A node's processor payload: a constant source, a primitive operation, a
/// builtin-catalog kind, or a sample player.
pub enum ProcKind {
    Constant(u64),
    Op(OpKind),
    Builtin(BuiltinNode),
    Sampler(Sample),
}

/// A processing-node descriptor: display name, declared ports and payload.
pub struct NodeSpec {
    pub name: String,
    pub inputs: Vec<InputSpec>,
    pub outputs: Vec<OutputSpec>,
    pub proc: ProcKind,
}

/// A directed, unweighted wire between two ports of the builder graph.
#[derive(Clone, Copy, Debug, PartialEq, Eq, Structural, Hash)]
pub struct BuilderEdge {
    pub id: EdgeIndex,
    pub source: NodeIndex,
    pub source_output: u32,
    pub sink: NodeIndex,
    pub sink_input: u32,
}

/// The construction context: an arena of node descriptors and connections.
pub struct GraphBuilder {
    pub nodes: Vec<NodeSpec>,
    pub edges: Vec<BuilderEdge>,
}

/// A cheap, copyable handle to a node of a `GraphBuilder`.
#[derive(Clone, Copy, Debug, PartialEq, Eq, Structural, Hash)]
pub struct Node {
    pub node_id: NodeIndex,
}

/// An operand of the expression sugar: a node handle, a raw identifier, or
/// a scalar literal (the bit pattern of a binary64 value), which is
/// materialized as a constant node. The set is closed.
#[derive(Clone, Copy, Debug)]
pub enum Operand {
    Node(Node),
    Id(NodeIndex),
    Lit(u64),
}

/// A port selector: a numeric index or a declared port name. The set is
/// closed.
pub enum PortSel {
    Idx(u32),
    Name(String),
}

/// The first declared input of `inputs`, at position `k` or later, whose
/// name is `want`.
pub open spec fn find_input_from(inputs: Seq<InputSpec>, want: Seq<char>, k: int) -> Option<int>
    decreases inputs.len() - k,
{
    if k < 0 || k >= inputs.len() {
        None
    } else if inputs[k].name@ == want {
        Some(k)
    } else {
        find_input_from(inputs, want, k + 1)
    }
}

/// The first declared output of `outputs`, at position `k` or later, whose
/// name is `want`.
pub open spec fn find_output_from(outputs: Seq<OutputSpec>, want: Seq<char>, k: int) -> Option<int>
    decreases outputs.len() - k,
{
    if k < 0 || k >= outputs.len() {
        None
    } else if outputs[k].name@ == want {
        Some(k)
    } else {
        find_output_from(outputs, want, k + 1)
    }
}

impl PortSel {
    /// Which input port of `n` this selector picks: a numeric index stands
    /// as it is (range errors are the scheduler's concern, as in the raw
    /// `connect`), a name resolves to the first declared input of that name
    /// or fails.
    pub open spec fn spec_in_idx(self, n: NodeSpec) -> Option<int> {
        match self {
            PortSel::Idx(i) => Some(i as int),
            PortSel::Name(s) => find_input_from(n.inputs@, s@, 0),
        }
    }

    /// Which output port of `n` this selector picks.
    pub open spec fn spec_out_idx(self, n: NodeSpec) -> Option<int> {
        match self {
            PortSel::Idx(i) => Some(i as int),
            PortSel::Name(s) => find_output_from(n.outputs@, s@, 0),
        }
    }
}

/// A constant-source node: no inputs, one output named `out`, holding the
/// given sample.
pub open spec fn is_const_node(n: NodeSpec, value: u64) -> bool {
    &&& n.name@ == "constant"@
    &&& n.inputs@.len() == 0
    &&& n.outputs@.len() == 1
    &&& n.outputs@[0].name@ == "out"@
    &&& n.proc == ProcKind::Constant(value)
}

/// The display name of each primitive operation.
pub open spec fn op_name(kind: OpKind) -> Seq<char> {
    match kind {
        OpKind::Add => "add"@,
        OpKind::Sub => "sub"@,
        OpKind::Mul => "mul"@,
        OpKind::Div => "div"@,
        OpKind::Rem => "rem"@,
        OpKind::Powf => "powf"@,
        OpKind::Atan2 => "atan2"@,
        OpKind::Hypot => "hypot"@,
        OpKind::Max => "max"@,
        OpKind::Min => "min"@,
        OpKind::Neg => "neg"@,
        OpKind::Abs => "abs"@,
        OpKind::Sqrt => "sqrt"@,
        OpKind::Cbrt => "cbrt"@,
        OpKind::Ceil => "ceil"@,
        OpKind::Floor => "floor"@,
        OpKind::Round => "round"@,
        OpKind::Sin => "sin"@,
        OpKind::Cos => "cos"@,
        OpKind::Tan => "tan"@,
        OpKind::Asin => "asin"@,
        OpKind::Acos => "acos"@,
        OpKind::Atan => "atan"@,
        OpKind::Recip => "recip"@,
        OpKind::Signum => "signum"@,
        OpKind::Fract => "fract"@,
    }
}

/// A binary-operation node: inputs `a` and `b`, one output `out`.
pub open spec fn is_binary_op_node(n: NodeSpec, kind: OpKind) -> bool {
    &&& n.name@ == op_name(kind)
    &&& n.inputs@.len() == 2
    &&& n.inputs@[0].name@ == "a"@
    &&& n.inputs@[1].name@ == "b"@
    &&& n.inputs@[0].default is None
    &&& n.inputs@[1].default is None
    &&& n.outputs@.len() == 1
    &&& n.outputs@[0].name@ == "out"@
    &&& n.proc == ProcKind::Op(kind)
}

/// A unary-operation node: one input `in`, one output `out`.
pub open spec fn is_unary_op_node(n: NodeSpec, kind: OpKind) -> bool {
    &&& n.name@ == op_name(kind)
    &&& n.inputs@.len() == 1
    &&& n.inputs@[0].name@ == "in"@
    &&& n.inputs@[0].default is None
    &&& n.outputs@.len() == 1
    &&& n.outputs@[0].name@ == "out"@
    &&& n.proc == ProcKind::Op(kind)
}

/// Two descriptors declare the same node: same name, ports, defaults and
/// payload.
pub open spec fn node_equiv(x: NodeSpec, y: NodeSpec) -> bool {
    &&& x.name@ == y.name@
    &&& x.inputs@.len() == y.inputs@.len()
    &&& forall|i: int|
        0 <= i < x.inputs@.len() ==> (#[trigger] x.inputs@[i]).name@ == y.inputs@[i].name@
            && x.inputs@[i].default == y.inputs@[i].default
    &&& x.outputs@.len() == y.outputs@.len()
    &&& forall|i: int|
        0 <= i < x.outputs@.len() ==> (#[trigger] x.outputs@[i]).name@ == y.outputs@[i].name@
    &&& x.proc == y.proc
}

/// Two node arenas declare the same graph nodes.
pub open spec fn nodes_equiv(xs: Seq<NodeSpec>, ys: Seq<NodeSpec>) -> bool {
    &&& xs.len() == ys.len()
    &&& forall|i: int| 0 <= i < xs.len() ==> node_equiv(#[trigger] xs[i], ys[i])
}

/// How materializing an operand changes the node arena: a literal appends
/// one constant node, everything else leaves it alone.
pub open spec fn operand_nodes_ok(pre: Seq<NodeSpec>, post: Seq<NodeSpec>, op: Operand) -> bool {
    match op {
        Operand::Lit(v) => {
            &&& post.len() == pre.len() + 1
            &&& post.subrange(0, pre.len() as int) == pre
            &&& is_const_node(post.last(), v)
        },
        _ => post == pre,
    }
}

impl Operand {
    /// The node the operand stands for, after materialization (a literal
    /// becomes the node appended at the old arena end).
    pub open spec fn spec_id(self, pre: GraphBuilder) -> int {
        match self {
            Operand::Node(n) => n.node_id.0 as int,
            Operand::Id(x) => x.0 as int,
            Operand::Lit(_) => pre.nodes@.len() as int,
        }
    }

    /// An operand names an existing node (a literal always qualifies).
    pub open spec fn spec_valid(self, pre: GraphBuilder) -> bool {
        match self {
            Operand::Node(n) => n.node_id.0 < pre.nodes@.len(),
            Operand::Id(x) => x.0 < pre.nodes@.len(),
            Operand::Lit(_) => true,
        }
    }

    /// An operand fit for the expression sugar: it names an existing node
    /// with exactly one output (a literal's constant node always has one).
    pub open spec fn spec_single_output(self, pre: GraphBuilder) -> bool {
        match self {
            Operand::Node(n) => n.node_id.0 < pre.nodes@.len() && pre.nodes@[n.node_id.0 as int].outputs@.len() == 1,
            Operand::Id(x) => x.0 < pre.nodes@.len() && pre.nodes@[x.0 as int].outputs@.len() == 1,
            Operand::Lit(_) => true,
        }
    }

    /// Which output port of the materialized operand a selector picks: on a
    /// literal it resolves against the constant node's single `out` port.
    pub open spec fn spec_out_resolution(self, pre: GraphBuilder, sel: PortSel) -> Option<int> {
        match self {
            Operand::Lit(_) => match sel {
                PortSel::Idx(i) => Some(i as int),
                PortSel::Name(s) => if s@ == "out"@ {
                    Some(0)
                } else {
                    None
                },
            },
            _ => sel.spec_out_idx(pre.nodes@[self.spec_id(pre)]),
        }
    }

    /// Which input port of the materialized operand a selector picks: a
    /// literal's constant node declares no inputs, so a name never
    /// resolves.
    pub open spec fn spec_in_resolution(self, pre: GraphBuilder, sel: PortSel) -> Option<int> {
        match self {
            Operand::Lit(_) => match sel {
                PortSel::Idx(i) => Some(i as int),
                PortSel::Name(_) => None,
            },
            _ => sel.spec_in_idx(pre.nodes@[self.spec_id(pre)]),
        }
    }
}

impl GraphBuilder {
    /// Well-formedness: every edge connects existing nodes and carries the
    /// handle it was assigned, and every port list fits `u32` indexing.
    pub open spec fn wf(self) -> bool {
        &&& forall|k: int|
            0 <= k < self.edges@.len() ==> (#[trigger] self.edges@[k]).source.0
                < self.nodes@.len() && self.edges@[k].sink.0 < self.nodes@.len()
                && self.edges@[k].id.0 == k
        &&& forall|i: int|
            0 <= i < self.nodes@.len() ==> (#[trigger] self.nodes@[i]).inputs@.len() <= u32::MAX
                && self.nodes@[i].outputs@.len() <= u32::MAX
    }

    pub fn new() -> (gb: GraphBuilder)
        ensures
            gb.wf(),
            gb.nodes@.len() == 0,
            gb.edges@.len() == 0,
    {
        GraphBuilder { nodes: Vec::new(), edges: Vec::new() }
    }

    /// Insert a node descriptor, returning its handle.
    pub fn add(&mut self, desc: NodeSpec) -> (n: Node)
        requires
            old(self).wf(),
            old(self).nodes@.len() < usize::MAX,
            desc.inputs@.len() <= u32::MAX,
            desc.outputs@.len() <= u32::MAX,
        ensures
            final(self).wf(),
            n.node_id.0 == old(self).nodes@.len(),
            final(self).nodes@ == old(self).nodes@.push(desc),
            final(self).edges == old(self).edges,
    {
        let id = NodeIndex(self.nodes.len());
        self.nodes.push(desc);
        Node { node_id: id }
    }

    /// Insert a zero-input, single-output constant-source node holding the
    /// given sample (the bit pattern of a binary64 value).
    pub fn add_constant(&mut self, value: u64) -> (n: Node)
        requires
            old(self).wf(),
            old(self).nodes@.len() < usize::MAX,
        ensures
            final(self).wf(),
            Self::add_constant_ens(*old(self), *final(self), value, n),
    {
        let outputs_v: Vec<OutputSpec> = vec![OutputSpec { name: "out".to_owned() }];
        assert(outputs_v@.len() == 1);
        let desc = NodeSpec {
            name: "constant".to_owned(),
            inputs: Vec::new(),
            outputs: outputs_v,
            proc: ProcKind::Constant(value),
        };
        let n = self.add(desc);
        assert(final(self).nodes@.subrange(0, old(self).nodes@.len() as int) =~= old(
            self,
        ).nodes@);
        n
    }

    /// What `add_constant` does: one constant node appended, edges
    /// untouched, the handle naming the new node.
    pub open spec fn add_constant_ens(
        pre: GraphBuilder,
        post: GraphBuilder,
        value: u64,
        n: Node,
    ) -> bool {
        &&& n.node_id.0 == pre.nodes@.len()
        &&& post.nodes@.len() == pre.nodes@.len() + 1
        &&& post.nodes@.subrange(0, pre.nodes@.len() as int) == pre.nodes@
        &&& is_const_node(post.nodes@.last(), value)
        &&& post.edges == pre.edges
    }

    /// Wire `source_output` of `source` into `sink_input` of `sink`. Port
    /// ranges are not checked here, exactly as in the evaluation graph's
    /// raw connect: an out-of-range index is a programming error caught at
    /// evaluation time.
    pub fn connect(
        &mut self,
        source: NodeIndex,
        source_output: u32,
        sink: NodeIndex,
        sink_input: u32,
    ) -> (id: EdgeIndex)
        requires
            old(self).wf(),
            source.0 < old(self).nodes@.len(),
            sink.0 < old(self).nodes@.len(),
            old(self).edges@.len() < usize::MAX,
        ensures
            final(self).wf(),
            id.0 == old(self).edges@.len(),
            Self::connect_ens(*old(self), *final(self), source, source_output, sink, sink_input),
    {
        let id = EdgeIndex(self.edges.len());
        let e = BuilderEdge { id, source, source_output, sink, sink_input };
        self.edges.push(e);
        id
    }

    /// What `connect` does: one edge appended with the next handle, nodes
    /// untouched.
    pub open spec fn connect_ens(
        pre: GraphBuilder,
        post: GraphBuilder,
        source: NodeIndex,
        source_output: u32,
        sink: NodeIndex,
        sink_input: u32,
    ) -> bool {
        &&& post.nodes == pre.nodes
        &&& post.edges@ == pre.edges@.push(
            (BuilderEdge {
                id: EdgeIndex(pre.edges@.len() as usize),
                source,
                source_output,
                sink,
                sink_input,
            }),
        )
    }
}

/// The position of the first declared input named `s`, if any.
fn find_input_pos(inputs: &Vec<InputSpec>, s: &String) -> (r: Option<u32>)
    requires
        inputs@.len() <= u32::MAX,
    ensures
        r matches Some(p) ==> find_input_from(inputs@, s@, 0) == Some(p as int),
        r is None ==> find_input_from(inputs@, s@, 0) is None,
{
    let mut k: usize = 0;
    while k < inputs.len()
        invariant
            k <= inputs@.len(),
            inputs@.len() <= u32::MAX,
            find_input_from(inputs@, s@, 0) == find_input_from(inputs@, s@, k as int),
        decreases inputs@.len() - k,
    {
        if inputs[k].name.eq(s) {
            return Some(k as u32);
        }
        k = k + 1;
    }
    None
}

/// The position of the first declared output named `s`, if any.
fn find_output_pos(outputs: &Vec<OutputSpec>, s: &String) -> (r: Option<u32>)
    requires
        outputs@.len() <= u32::MAX,
    ensures
        r matches Some(p) ==> find_output_from(outputs@, s@, 0) == Some(p as int),
        r is None ==> find_output_from(outputs@, s@, 0) is None,
{
    let mut k: usize = 0;
    while k < outputs.len()
        invariant
            k <= outputs@.len(),
            outputs@.len() <= u32::MAX,
            find_output_from(outputs@, s@, 0) == find_output_from(outputs@, s@, k as int),
        decreases outputs@.len() - k,
    {
        if outputs[k].name.eq(s) {
            return Some(k as u32);
        }
        k = k + 1;
    }
    None
}

/// Resolve an input selector against a node descriptor: the first declared
/// input of that name, or the numeric index as given.
fn resolve_input(sel: &PortSel, n: &NodeSpec) -> (r: Option<u32>)
    requires
        n.inputs@.len() <= u32::MAX,
    ensures
        r matches Some(p) ==> sel.spec_in_idx(*n) == Some(p as int),
        r is None ==> sel.spec_in_idx(*n) is None,
{
    match sel {
        PortSel::Idx(i) => Some(*i),
        PortSel::Name(s) => find_input_pos(&n.inputs, s),
    }
}

/// Resolve an output selector against a node descriptor.
fn resolve_output(sel: &PortSel, n: &NodeSpec) -> (r: Option<u32>)
    requires
        n.outputs@.len() <= u32::MAX,
    ensures
        r matches Some(p) ==> sel.spec_out_idx(*n) == Some(p as int),
        r is None ==> sel.spec_out_idx(*n) is None,
{
    match sel {
        PortSel::Idx(i) => Some(*i),
        PortSel::Name(s) => find_output_pos(&n.outputs, s),
    }
}

/// What `connect_input` does: the operand is materialized (a literal
/// becomes a constant node), both selectors resolve, and one edge is
/// appended from the operand's output into the handle's input; an
/// unresolved name fails the call and leaves the builder untouched.
pub open spec fn connect_input_ens(
    node: Node,
    pre: GraphBuilder,
    post: GraphBuilder,
    source: Operand,
    source_output: PortSel,
    input: PortSel,
    r: Result<Node, GraphError>,
) -> bool {
    let out_res = source.spec_out_resolution(pre, source_output);
    let in_res = input.spec_in_idx(pre.nodes@[node.node_id.0 as int]);
    match r {
        Ok(nres) => {
            &&& nres == node
            &&& out_res is Some
            &&& in_res is Some
            &&& operand_nodes_ok(pre.nodes@, post.nodes@, source)
            &&& post.edges@ == pre.edges@.push(
                (BuilderEdge {
                    id: EdgeIndex(pre.edges@.len() as usize),
                    source: NodeIndex(source.spec_id(pre) as usize),
                    source_output: out_res->Some_0 as u32,
                    sink: node.node_id,
                    sink_input: in_res->Some_0 as u32,
                }),
            )
        },
        Err(e) => {
            &&& e == GraphError::UnknownPort
            &&& (out_res is None || in_res is None)
            &&& post == pre
        },
    }
}

/// What `connect_output` does, symmetrically: one edge from the handle's
/// output into the materialized target's input.
pub open spec fn connect_output_ens(
    node: Node,
    pre: GraphBuilder,
    post: GraphBuilder,
    output: PortSel,
    target: Operand,
    target_input: PortSel,
    r: Result<Node, GraphError>,
) -> bool {
    let out_res = output.spec_out_idx(pre.nodes@[node.node_id.0 as int]);
    let in_res = target.spec_in_resolution(pre, target_input);
    match r {
        Ok(nres) => {
            &&& nres == node
            &&& out_res is Some
            &&& in_res is Some
            &&& operand_nodes_ok(pre.nodes@, post.nodes@, target)
            &&& post.edges@ == pre.edges@.push(
                (BuilderEdge {
                    id: EdgeIndex(pre.edges@.len() as usize),
                    source: node.node_id,
                    source_output: out_res->Some_0 as u32,
                    sink: NodeIndex(target.spec_id(pre) as usize),
                    sink_input: in_res->Some_0 as u32,
                }),
            )
        },
        Err(e) => {
            &&& e == GraphError::UnknownPort
            &&& (out_res is None || in_res is None)
            &&& post == pre
        },
    }
}

impl Node {
    /// The handle this node was assigned at insertion.
    pub fn id(self) -> (r: NodeIndex)
        ensures
            r == self.node_id,
    {
        self.node_id
    }

    /// How many inputs the node declares.
    pub fn num_inputs(self, gb: &GraphBuilder) -> (r: usize)
        requires
            self.node_id.0 < gb.nodes@.len(),
        ensures
            r == gb.nodes@[self.node_id.0 as int].inputs@.len(),
    {
        gb.nodes[self.node_id.0].inputs.len()
    }

    /// How many outputs the node declares.
    pub fn num_outputs(self, gb: &GraphBuilder) -> (r: usize)
        requires
            self.node_id.0 < gb.nodes@.len(),
        ensures
            r == gb.nodes@[self.node_id.0 as int].outputs@.len(),
    {
        gb.nodes[self.node_id.0].outputs.len()
    }

    /// The expression sugar works on single-output operands only; asking it
    /// to combine a multi-output node is a programming error, ruled out up
    /// front.
    pub fn assert_single_output(self, gb: &GraphBuilder) -> (r: Self)
        requires
            self.node_id.0 < gb.nodes@.len(),
            gb.nodes@[self.node_id.0 as int].outputs@.len() == 1,
        ensures
            r == self,
    {
        self
    }

    /// Wire `source`'s selected output into this node's selected input;
    /// returns the handle unchanged for chaining. An unresolved port name
    /// fails the call and leaves the graph as it was.
    pub fn connect_input(
        self,
        gb: &mut GraphBuilder,
        source: Operand,
        source_output: PortSel,
        input: PortSel,
    ) -> (r: Result<Node, GraphError>)
        requires
            old(gb).wf(),
            self.node_id.0 < old(gb).nodes@.len(),
            source.spec_valid(*old(gb)),
            old(gb).nodes@.len() < usize::MAX,
            old(gb).edges@.len() < usize::MAX,
        ensures
            final(gb).wf(),
            connect_input_ens(self, *old(gb), *final(gb), source, source_output, input, r),
    {
        let in_idx = match resolve_input(&input, &gb.nodes[self.node_id.0]) {
            Some(i) => i,
            None => {
                return Err(GraphError::UnknownPort);
            },
        };
        match source {
            Operand::Lit(v) => {
                let out_idx = match &source_output {
                    PortSel::Idx(i) => *i,
                    PortSel::Name(s) => {
                        if s.eq(&"out".to_owned()) {
                            0u32
                        } else {
                            return Err(GraphError::UnknownPort);
                        }
                    },
                };
                let c = gb.add_constant(v);
                gb.connect(c.node_id, out_idx, self.node_id, in_idx);
                Ok(self)
            },
            Operand::Node(n) => {
                let out_idx = match resolve_output(&source_output, &gb.nodes[n.node_id.0]) {
                    Some(i) => i,
                    None => {
                        return Err(GraphError::UnknownPort);
                    },
                };
                gb.connect(n.node_id, out_idx, self.node_id, in_idx);
                Ok(self)
            },
            Operand::Id(x) => {
                let out_idx = match resolve_output(&source_output, &gb.nodes[x.0]) {
                    Some(i) => i,
                    None => {
                        return Err(GraphError::UnknownPort);
                    },
                };
                gb.connect(x, out_idx, self.node_id, in_idx);
                Ok(self)
            },
        }
    }

    /// Wire this node's selected output into `target`'s selected input;
    /// returns the handle unchanged for chaining.
    pub fn connect_output(
        self,
        gb: &mut GraphBuilder,
        output: PortSel,
        target: Operand,
        target_input: PortSel,
    ) -> (r: Result<Node, GraphError>)
        requires
            old(gb).wf(),
            self.node_id.0 < old(gb).nodes@.len(),
            target.spec_valid(*old(gb)),
            old(gb).nodes@.len() < usize::MAX,
            old(gb).edges@.len() < usize::MAX,
        ensures
            final(gb).wf(),
            connect_output_ens(self, *old(gb), *final(gb), output, target, target_input, r),
    {
        let out_idx = match resolve_output(&output, &gb.nodes[self.node_id.0]) {
            Some(i) => i,
            None => {
                return Err(GraphError::UnknownPort);
            },
        };
        match target {
            Operand::Lit(v) => {
                let in_idx = match &target_input {
                    PortSel::Idx(i) => *i,
                    PortSel::Name(_) => {
                        return Err(GraphError::UnknownPort);
                    },
                };
                let c = gb.add_constant(v);
                gb.connect(self.node_id, out_idx, c.node_id, in_idx);
                Ok(self)
            },
            Operand::Node(n) => {
                let in_idx = match resolve_input(&target_input, &gb.nodes[n.node_id.0]) {
                    Some(i) => i,
                    None => {
                        return Err(GraphError::UnknownPort);
                    },
                };
                gb.connect(self.node_id, out_idx, n.node_id, in_idx);
                Ok(self)
            },
            Operand::Id(x) => {
                let in_idx = match resolve_input(&target_input, &gb.nodes[x.0]) {
                    Some(i) => i,
                    None => {
                        return Err(GraphError::UnknownPort);
                    },
                };
                gb.connect(self.node_id, out_idx, x, in_idx);
                Ok(self)
            },
        }
    }
}


/// What the expression sugar requires: an existing, single-output handle
/// and a single-output operand, with room in the arena.
pub open spec fn sugar_req(a: Node, pre: GraphBuilder, other: Operand) -> bool {
    &&& pre.wf()
    &&& a.node_id.0 < pre.nodes@.len()
    &&& pre.nodes@[a.node_id.0 as int].outputs@.len() == 1
    &&& other.spec_single_output(pre)
    &&& pre.nodes@.len() + 2 <= usize::MAX
    &&& pre.edges@.len() + 2 <= usize::MAX
}

/// What a binary sugar call does: the operand is materialized, the
/// operation node is appended, and the two operands are wired into its
/// inputs 0 and 1; the result handle names the operation node.
pub open spec fn binary_ens(
    a: Node,
    pre: GraphBuilder,
    post: GraphBuilder,
    other: Operand,
    kind: OpKind,
    result: Node,
) -> bool {
    let src = other.spec_id(pre);
    let opid = result.node_id.0 as int;
    &&& opid == pre.nodes@.len() + (if other is Lit {
        1int
    } else {
        0int
    })
    &&& post.nodes@.len() == opid + 1
    &&& post.nodes@.subrange(0, pre.nodes@.len() as int) == pre.nodes@
    &&& (other matches Operand::Lit(v) ==> is_const_node(
        post.nodes@[pre.nodes@.len() as int],
        v,
    ))
    &&& is_binary_op_node(post.nodes@[opid], kind)
    &&& post.edges@.len() == pre.edges@.len() + 2
    &&& post.edges@.subrange(0, pre.edges@.len() as int) == pre.edges@
    &&& post.edges@[post.edges@.len() - 2] == (BuilderEdge {
        id: EdgeIndex(pre.edges@.len() as usize),
        source: a.node_id,
        source_output: 0,
        sink: NodeIndex(opid as usize),
        sink_input: 0,
    })
    &&& post.edges@[post.edges@.len() - 1] == (BuilderEdge {
        id: EdgeIndex((pre.edges@.len() + 1) as usize),
        source: NodeIndex(src as usize),
        source_output: 0,
        sink: NodeIndex(opid as usize),
        sink_input: 1,
    })
}

/// What a unary sugar call does: the operation node is appended and the
/// handle is wired into its single input.
pub open spec fn unary_ens(
    a: Node,
    pre: GraphBuilder,
    post: GraphBuilder,
    kind: OpKind,
    result: Node,
) -> bool {
    let opid = result.node_id.0 as int;
    &&& opid == pre.nodes@.len()
    &&& post.nodes@.len() == opid + 1
    &&& post.nodes@.subrange(0, pre.nodes@.len() as int) == pre.nodes@
    &&& is_unary_op_node(post.nodes@[opid], kind)
    &&& post.edges@.len() == pre.edges@.len() + 1
    &&& post.edges@.subrange(0, pre.edges@.len() as int) == pre.edges@
    &&& post.edges@[post.edges@.len() - 1] == (BuilderEdge {
        id: EdgeIndex(pre.edges@.len() as usize),
        source: a.node_id,
        source_output: 0,
        sink: NodeIndex(opid as usize),
        sink_input: 0,
    })
}

/// The display name of a primitive operation, as a fresh string.
fn op_name_exec(kind: OpKind) -> (s: String)
    ensures
        s@ == op_name(kind),
{
    let raw = match kind {
        OpKind::Add => "add",
        OpKind::Sub => "sub",
        OpKind::Mul => "mul",
        OpKind::Div => "div",
        OpKind::Rem => "rem",
        OpKind::Powf => "powf",
        OpKind::Atan2 => "atan2",
        OpKind::Hypot => "hypot",
        OpKind::Max => "max",
        OpKind::Min => "min",
        OpKind::Neg => "neg",
        OpKind::Abs => "abs",
        OpKind::Sqrt => "sqrt",
        OpKind::Cbrt => "cbrt",
        OpKind::Ceil => "ceil",
        OpKind::Floor => "floor",
        OpKind::Round => "round",
        OpKind::Sin => "sin",
        OpKind::Cos => "cos",
        OpKind::Tan => "tan",
        OpKind::Asin => "asin",
        OpKind::Acos => "acos",
        OpKind::Atan => "atan",
        OpKind::Recip => "recip",
        OpKind::Signum => "signum",
        OpKind::Fract => "fract",
    };
    raw.to_owned()
}

/// A fresh binary-operation node descriptor.
fn binary_node_desc(kind: OpKind) -> (d: NodeSpec)
    ensures
        is_binary_op_node(d, kind),
{
    let mut inputs: Vec<InputSpec> = Vec::new();
    inputs.push(InputSpec { name: "a".to_owned(), default: None });
    inputs.push(InputSpec { name: "b".to_owned(), default: None });
    let mut outputs: Vec<OutputSpec> = Vec::new();
    outputs.push(OutputSpec { name: "out".to_owned() });
    NodeSpec { name: op_name_exec(kind), inputs, outputs, proc: ProcKind::Op(kind) }
}

/// A fresh unary-operation node descriptor.
fn unary_node_desc(kind: OpKind) -> (d: NodeSpec)
    ensures
        is_unary_op_node(d, kind),
{
    let mut inputs: Vec<InputSpec> = Vec::new();
    inputs.push(InputSpec { name: "in".to_owned(), default: None });
    let mut outputs: Vec<OutputSpec> = Vec::new();
    outputs.push(OutputSpec { name: "out".to_owned() });
    NodeSpec { name: op_name_exec(kind), inputs, outputs, proc: ProcKind::Op(kind) }
}

impl Node {
    /// Instantiate the binary operation node for `kind` and wire `self`
    /// into input 0 and `other` (materialized if a literal) into input 1.
    pub fn binary_op(self, gb: &mut GraphBuilder, other: Operand, kind: OpKind) -> (n: Node)
        requires
            sugar_req(self, *old(gb), other),
        ensures
            final(gb).wf(),
            binary_ens(self, *old(gb), *final(gb), other, kind, n),
    {
        let src = match other {
            Operand::Lit(v) => gb.add_constant(v),
            Operand::Node(n2) => n2,
            Operand::Id(x) => Node { node_id: x },
        };
        let opnode = gb.add(binary_node_desc(kind));
        gb.connect(self.node_id, 0, opnode.node_id, 0);
        gb.connect(src.node_id, 0, opnode.node_id, 1);
        proof {
            assert(final(gb).nodes@.subrange(0, old(gb).nodes@.len() as int) =~= old(
                gb,
            ).nodes@);
            assert(final(gb).edges@.subrange(0, old(gb).edges@.len() as int) =~= old(
                gb,
            ).edges@);
        }
        opnode
    }

    /// Instantiate the unary operation node for `kind` and wire `self` into
    /// its single input.
    pub fn unary_op(self, gb: &mut GraphBuilder, kind: OpKind) -> (n: Node)
        requires
            old(gb).wf(),
            self.node_id.0 < old(gb).nodes@.len(),
            old(gb).nodes@[self.node_id.0 as int].outputs@.len() == 1,
            old(gb).nodes@.len() + 1 <= usize::MAX,
            old(gb).edges@.len() + 1 <= usize::MAX,
        ensures
            final(gb).wf(),
            unary_ens(self, *old(gb), *final(gb), kind, n),
    {
        let opnode = gb.add(unary_node_desc(kind));
        gb.connect(self.node_id, 0, opnode.node_id, 0);
        proof {
            assert(final(gb).nodes@.subrange(0, old(gb).nodes@.len() as int) =~= old(
                gb,
            ).nodes@);
            assert(final(gb).edges@.subrange(0, old(gb).edges@.len() as int) =~= old(
                gb,
            ).edges@);
        }
        opnode
    }
}

impl Node {
    /// Adds two signals together.
    pub fn add(self, gb: &mut GraphBuilder, other: Operand) -> (n: Node)
        requires
            sugar_req(self, *old(gb), other),
        ensures
            final(gb).wf(),
            binary_ens(self, *old(gb), *final(gb), other, OpKind::Add, n),
    {
        self.binary_op(gb, other, OpKind::Add)
    }

    /// Subtracts one signal from another.
    pub fn sub(self, gb: &mut GraphBuilder, other: Operand) -> (n: Node)
        requires
            sugar_req(self, *old(gb), other),
        ensures
            final(gb).wf(),
            binary_ens(self, *old(gb), *final(gb), other, OpKind::Sub, n),
    {
        self.binary_op(gb, other, OpKind::Sub)
    }

    /// Multiplies two signals together.
    pub fn mul(self, gb: &mut GraphBuilder, other: Operand) -> (n: Node)
        requires
            sugar_req(self, *old(gb), other),
        ensures
            final(gb).wf(),
            binary_ens(self, *old(gb), *final(gb), other, OpKind::Mul, n),
    {
        self.binary_op(gb, other, OpKind::Mul)
    }

    /// Divides one signal by another.
    pub fn div(self, gb: &mut GraphBuilder, other: Operand) -> (n: Node)
        requires
            sugar_req(self, *old(gb), other),
        ensures
            final(gb).wf(),
            binary_ens(self, *old(gb), *final(gb), other, OpKind::Div, n),
    {
        self.binary_op(gb, other, OpKind::Div)
    }

    /// Calculates the remainder of one signal divided by another.
    pub fn rem(self, gb: &mut GraphBuilder, other: Operand) -> (n: Node)
        requires
            sugar_req(self, *old(gb), other),
        ensures
            final(gb).wf(),
            binary_ens(self, *old(gb), *final(gb), other, OpKind::Rem, n),
    {
        self.binary_op(gb, other, OpKind::Rem)
    }

    /// Raises one signal to the power of another.
    pub fn powf(self, gb: &mut GraphBuilder, other: Operand) -> (n: Node)
        requires
            sugar_req(self, *old(gb), other),
        ensures
            final(gb).wf(),
            binary_ens(self, *old(gb), *final(gb), other, OpKind::Powf, n),
    {
        self.binary_op(gb, other, OpKind::Powf)
    }

    /// Calculates the arctangent of the ratio of two signals.
    pub fn atan2(self, gb: &mut GraphBuilder, other: Operand) -> (n: Node)
        requires
            sugar_req(self, *old(gb), other),
        ensures
            final(gb).wf(),
            binary_ens(self, *old(gb), *final(gb), other, OpKind::Atan2, n),
    {
        self.binary_op(gb, other, OpKind::Atan2)
    }

    /// Calculates the hypotenuse of two signals.
    pub fn hypot(self, gb: &mut GraphBuilder, other: Operand) -> (n: Node)
        requires
            sugar_req(self, *old(gb), other),
        ensures
            final(gb).wf(),
            binary_ens(self, *old(gb), *final(gb), other, OpKind::Hypot, n),
    {
        self.binary_op(gb, other, OpKind::Hypot)
    }

    /// Returns the maximum of two signals.
    pub fn max(self, gb: &mut GraphBuilder, other: Operand) -> (n: Node)
        requires
            sugar_req(self, *old(gb), other),
        ensures
            final(gb).wf(),
            binary_ens(self, *old(gb), *final(gb), other, OpKind::Max, n),
    {
        self.binary_op(gb, other, OpKind::Max)
    }

    /// Returns the minimum of two signals.
    pub fn min(self, gb: &mut GraphBuilder, other: Operand) -> (n: Node)
        requires
            sugar_req(self, *old(gb), other),
        ensures
            final(gb).wf(),
            binary_ens(self, *old(gb), *final(gb), other, OpKind::Min, n),
    {
        self.binary_op(gb, other, OpKind::Min)
    }

    /// Negates the input signal.
    pub fn neg(self, gb: &mut GraphBuilder) -> (n: Node)
        requires
            old(gb).wf(),
            self.node_id.0 < old(gb).nodes@.len(),
            old(gb).nodes@[self.node_id.0 as int].outputs@.len() == 1,
            old(gb).nodes@.len() + 1 <= usize::MAX,
            old(gb).edges@.len() + 1 <= usize::MAX,
        ensures
            final(gb).wf(),
            unary_ens(self, *old(gb), *final(gb), OpKind::Neg, n),
    {
        self.unary_op(gb, OpKind::Neg)
    }

    /// Calculates the absolute value of the input signal.
    pub fn abs(self, gb: &mut GraphBuilder) -> (n: Node)
        requires
            old(gb).wf(),
            self.node_id.0 < old(gb).nodes@.len(),
            old(gb).nodes@[self.node_id.0 as int].outputs@.len() == 1,
            old(gb).nodes@.len() + 1 <= usize::MAX,
            old(gb).edges@.len() + 1 <= usize::MAX,
        ensures
            final(gb).wf(),
            unary_ens(self, *old(gb), *final(gb), OpKind::Abs, n),
    {
        self.unary_op(gb, OpKind::Abs)
    }

    /// Calculates the square root of the input signal.
    pub fn sqrt(self, gb: &mut GraphBuilder) -> (n: Node)
        requires
            old(gb).wf(),
            self.node_id.0 < old(gb).nodes@.len(),
            old(gb).nodes@[self.node_id.0 as int].outputs@.len() == 1,
            old(gb).nodes@.len() + 1 <= usize::MAX,
            old(gb).edges@.len() + 1 <= usize::MAX,
        ensures
            final(gb).wf(),
            unary_ens(self, *old(gb), *final(gb), OpKind::Sqrt, n),
    {
        self.unary_op(gb, OpKind::Sqrt)
    }

    /// Calculates the cube root of the input signal.
    pub fn cbrt(self, gb: &mut GraphBuilder) -> (n: Node)
        requires
            old(gb).wf(),
            self.node_id.0 < old(gb).nodes@.len(),
            old(gb).nodes@[self.node_id.0 as int].outputs@.len() == 1,
            old(gb).nodes@.len() + 1 <= usize::MAX,
            old(gb).edges@.len() + 1 <= usize::MAX,
        ensures
            final(gb).wf(),
            unary_ens(self, *old(gb), *final(gb), OpKind::Cbrt, n),
    {
        self.unary_op(gb, OpKind::Cbrt)
    }

    /// Rounds the input signal up to the nearest integer.
    pub fn ceil(self, gb: &mut GraphBuilder) -> (n: Node)
        requires
            old(gb).wf(),
            self.node_id.0 < old(gb).nodes@.len(),
            old(gb).nodes@[self.node_id.0 as int].outputs@.len() == 1,
            old(gb).nodes@.len() + 1 <= usize::MAX,
            old(gb).edges@.len() + 1 <= usize::MAX,
        ensures
            final(gb).wf(),
            unary_ens(self, *old(gb), *final(gb), OpKind::Ceil, n),
    {
        self.unary_op(gb, OpKind::Ceil)
    }

    /// Rounds the input signal down to the nearest integer.
    pub fn floor(self, gb: &mut GraphBuilder) -> (n: Node)
        requires
            old(gb).wf(),
            self.node_id.0 < old(gb).nodes@.len(),
            old(gb).nodes@[self.node_id.0 as int].outputs@.len() == 1,
            old(gb).nodes@.len() + 1 <= usize::MAX,
            old(gb).edges@.len() + 1 <= usize::MAX,
        ensures
            final(gb).wf(),
            unary_ens(self, *old(gb), *final(gb), OpKind::Floor, n),
    {
        self.unary_op(gb, OpKind::Floor)
    }

    /// Rounds the input signal to the nearest integer.
    pub fn round(self, gb: &mut GraphBuilder) -> (n: Node)
        requires
            old(gb).wf(),
            self.node_id.0 < old(gb).nodes@.len(),
            old(gb).nodes@[self.node_id.0 as int].outputs@.len() == 1,
            old(gb).nodes@.len() + 1 <= usize::MAX,
            old(gb).edges@.len() + 1 <= usize::MAX,
        ensures
            final(gb).wf(),
            unary_ens(self, *old(gb), *final(gb), OpKind::Round, n),
    {
        self.unary_op(gb, OpKind::Round)
    }

    /// Calculates the sine of the input signal.
    pub fn sin(self, gb: &mut GraphBuilder) -> (n: Node)
        requires
            old(gb).wf(),
            self.node_id.0 < old(gb).nodes@.len(),
            old(gb).nodes@[self.node_id.0 as int].outputs@.len() == 1,
            old(gb).nodes@.len() + 1 <= usize::MAX,
            old(gb).edges@.len() + 1 <= usize::MAX,
        ensures
            final(gb).wf(),
            unary_ens(self, *old(gb), *final(gb), OpKind::Sin, n),
    {
        self.unary_op(gb, OpKind::Sin)
    }

    /// Calculates the cosine of the input signal.
    pub fn cos(self, gb: &mut GraphBuilder) -> (n: Node)
        requires
            old(gb).wf(),
            self.node_id.0 < old(gb).nodes@.len(),
            old(gb).nodes@[self.node_id.0 as int].outputs@.len() == 1,
            old(gb).nodes@.len() + 1 <= usize::MAX,
            old(gb).edges@.len() + 1 <= usize::MAX,
        ensures
            final(gb).wf(),
            unary_ens(self, *old(gb), *final(gb), OpKind::Cos, n),
    {
        self.unary_op(gb, OpKind::Cos)
    }

    /// Calculates the tangent of the input signal.
    pub fn tan(self, gb: &mut GraphBuilder) -> (n: Node)
        requires
            old(gb).wf(),
            self.node_id.0 < old(gb).nodes@.len(),
            old(gb).nodes@[self.node_id.0 as int].outputs@.len() == 1,
            old(gb).nodes@.len() + 1 <= usize::MAX,
            old(gb).edges@.len() + 1 <= usize::MAX,
        ensures
            final(gb).wf(),
            unary_ens(self, *old(gb), *final(gb), OpKind::Tan, n),
    {
        self.unary_op(gb, OpKind::Tan)
    }

    /// Calculates the arcsine of the input signal.
    pub fn asin(self, gb: &mut GraphBuilder) -> (n: Node)
        requires
            old(gb).wf(),
            self.node_id.0 < old(gb).nodes@.len(),
            old(gb).nodes@[self.node_id.0 as int].outputs@.len() == 1,
            old(gb).nodes@.len() + 1 <= usize::MAX,
            old(gb).edges@.len() + 1 <= usize::MAX,
        ensures
            final(gb).wf(),
            unary_ens(self, *old(gb), *final(gb), OpKind::Asin, n),
    {
        self.unary_op(gb, OpKind::Asin)
    }

    /// Calculates the arccosine of the input signal.
    pub fn acos(self, gb: &mut GraphBuilder) -> (n: Node)
        requires
            old(gb).wf(),
            self.node_id.0 < old(gb).nodes@.len(),
            old(gb).nodes@[self.node_id.0 as int].outputs@.len() == 1,
            old(gb).nodes@.len() + 1 <= usize::MAX,
            old(gb).edges@.len() + 1 <= usize::MAX,
        ensures
            final(gb).wf(),
            unary_ens(self, *old(gb), *final(gb), OpKind::Acos, n),
    {
        self.unary_op(gb, OpKind::Acos)
    }

    /// Calculates the arctangent of the input signal.
    pub fn atan(self, gb: &mut GraphBuilder) -> (n: Node)
        requires
            old(gb).wf(),
            self.node_id.0 < old(gb).nodes@.len(),
            old(gb).nodes@[self.node_id.0 as int].outputs@.len() == 1,
            old(gb).nodes@.len() + 1 <= usize::MAX,
            old(gb).edges@.len() + 1 <= usize::MAX,
        ensures
            final(gb).wf(),
            unary_ens(self, *old(gb), *final(gb), OpKind::Atan, n),
    {
        self.unary_op(gb, OpKind::Atan)
    }

    /// Calculates the reciprocal of the input signal.
    pub fn recip(self, gb: &mut GraphBuilder) -> (n: Node)
        requires
            old(gb).wf(),
            self.node_id.0 < old(gb).nodes@.len(),
            old(gb).nodes@[self.node_id.0 as int].outputs@.len() == 1,
            old(gb).nodes@.len() + 1 <= usize::MAX,
            old(gb).edges@.len() + 1 <= usize::MAX,
        ensures
            final(gb).wf(),
            unary_ens(self, *old(gb), *final(gb), OpKind::Recip, n),
    {
        self.unary_op(gb, OpKind::Recip)
    }

    /// Returns the sign of the input signal.
    pub fn signum(self, gb: &mut GraphBuilder) -> (n: Node)
        requires
            old(gb).wf(),
            self.node_id.0 < old(gb).nodes@.len(),
            old(gb).nodes@[self.node_id.0 as int].outputs@.len() == 1,
            old(gb).nodes@.len() + 1 <= usize::MAX,
            old(gb).edges@.len() + 1 <= usize::MAX,
        ensures
            final(gb).wf(),
            unary_ens(self, *old(gb), *final(gb), OpKind::Signum, n),
    {
        self.unary_op(gb, OpKind::Signum)
    }

    /// Returns the fractional part of the input signal.
    pub fn fract(self, gb: &mut GraphBuilder) -> (n: Node)
        requires
            old(gb).wf(),
            self.node_id.0 < old(gb).nodes@.len(),
            old(gb).nodes@[self.node_id.0 as int].outputs@.len() == 1,
            old(gb).nodes@.len() + 1 <= usize::MAX,
            old(gb).edges@.len() + 1 <= usize::MAX,
        ensures
            final(gb).wf(),
            unary_ens(self, *old(gb), *final(gb), OpKind::Fract, n),
    {
        self.unary_op(gb, OpKind::Fract)
    }

}


/// Name-based port resolution: when a node declares an input under `name`
/// whose first occurrence is position `p`, connecting by that name yields
/// exactly the same edge as connecting by the numeric position `p`, and
/// the two calls succeed or fail together.
pub proof fn lemma_name_position_equiv(
    node: Node,
    pre: GraphBuilder,
    post_name: GraphBuilder,
    post_idx: GraphBuilder,
    source: Operand,
    outsel: PortSel,
    name: String,
    p: int,
    r1: Result<Node, GraphError>,
    r2: Result<Node, GraphError>,
)
    requires
        node.node_id.0 < pre.nodes@.len(),
        find_input_from(pre.nodes@[node.node_id.0 as int].inputs@, name@, 0) == Some(p),
        0 <= p <= u32::MAX,
        connect_input_ens(node, pre, post_name, source, outsel, PortSel::Name(name), r1),
        connect_input_ens(node, pre, post_idx, source, outsel, PortSel::Idx(p as u32), r2),
    ensures
        r1 is Ok <==> r2 is Ok,
        r1 is Ok ==> post_name.edges@ == post_idx.edges@ && nodes_equiv(
            post_name.nodes@,
            post_idx.nodes@,
        ),
{
    let in_res_name = PortSel::Name(name).spec_in_idx(pre.nodes@[node.node_id.0 as int]);
    let in_res_idx = PortSel::Idx(p as u32).spec_in_idx(pre.nodes@[node.node_id.0 as int]);
    assert(in_res_name == Some(p));
    assert(in_res_idx == Some(p));
    if r1 is Ok {
        match source {
            Operand::Lit(v) => {
                assert(post_name.nodes@.len() == post_idx.nodes@.len());
                assert forall|i: int| 0 <= i < post_name.nodes@.len() implies node_equiv(
                    #[trigger] post_name.nodes@[i],
                    post_idx.nodes@[i],
                ) by {
                    if i < pre.nodes@.len() {
                        assert(post_name.nodes@[i] == pre.nodes@.subrange(
                            0,
                            pre.nodes@.len() as int,
                        )[i]);
                        assert(post_name.nodes@[i] == pre.nodes@[i]);
                        assert(post_idx.nodes@[i] == pre.nodes@[i]);
                    } else {
                        assert(is_const_node(post_name.nodes@[i], v));
                        assert(is_const_node(post_idx.nodes@[i], v));
                    }
                }
            },
            _ => {
                assert(post_name.nodes@ == pre.nodes@);
                assert(post_idx.nodes@ == pre.nodes@);
            },
        }
    }
}

/// Operand-literal sugar: building `a.add(&mut gb, Operand::Lit(v))` is
/// observably equivalent to materializing the constant by hand, adding the
/// operation node, and wiring `a` into input 0 and the constant into input
/// 1 — the two builders end with the same edges and declare the same
/// nodes, and the two result handles coincide.
pub proof fn lemma_literal_sugar_equiv(
    a: Node,
    v: u64,
    kind: OpKind,
    pre: GraphBuilder,
    post_sugar: GraphBuilder,
    n_sugar: Node,
    mid1: GraphBuilder,
    c: Node,
    mid2: GraphBuilder,
    nop: Node,
    d: NodeSpec,
    mid3: GraphBuilder,
    post_manual: GraphBuilder,
)
    requires
        binary_ens(a, pre, post_sugar, Operand::Lit(v), kind, n_sugar),
        GraphBuilder::add_constant_ens(pre, mid1, v, c),
        is_binary_op_node(d, kind),
        nop.node_id.0 == mid1.nodes@.len(),
        mid2.nodes@ == mid1.nodes@.push(d),
        mid2.edges == mid1.edges,
        GraphBuilder::connect_ens(mid2, mid3, a.node_id, 0, nop.node_id, 0),
        GraphBuilder::connect_ens(mid3, post_manual, c.node_id, 0, nop.node_id, 1),
    ensures
        n_sugar == nop,
        post_sugar.edges@ == post_manual.edges@,
        nodes_equiv(post_sugar.nodes@, post_manual.nodes@),
{
    assert(c.node_id.0 == pre.nodes@.len());
    assert(n_sugar.node_id.0 == pre.nodes@.len() + 1);
    assert(post_manual.nodes@ == mid2.nodes@);
    assert(mid1.nodes@.subrange(0, pre.nodes@.len() as int) == pre.nodes@);
    assert(post_manual.edges@ == mid2.edges@.push(
        (BuilderEdge {
            id: EdgeIndex(mid2.edges@.len() as usize),
            source: a.node_id,
            source_output: 0,
            sink: nop.node_id,
            sink_input: 0,
        }),
    ).push(
        (BuilderEdge {
            id: EdgeIndex((mid2.edges@.len() + 1) as usize),
            source: c.node_id,
            source_output: 0,
            sink: nop.node_id,
            sink_input: 1,
        }),
    ));
    assert(mid2.edges@ == pre.edges@);
    assert(post_sugar.edges@ =~= post_manual.edges@);
    assert(post_sugar.nodes@.len() == post_manual.nodes@.len());
    assert forall|i: int| 0 <= i < post_sugar.nodes@.len() implies node_equiv(
        #[trigger] post_sugar.nodes@[i],
        post_manual.nodes@[i],
    ) by {
        if i < pre.nodes@.len() {
            assert(post_sugar.nodes@[i] == post_sugar.nodes@.subrange(
                0,
                pre.nodes@.len() as int,
            )[i]);
            assert(post_sugar.nodes@[i] == pre.nodes@[i]);
            assert(post_manual.nodes@[i] == mid1.nodes@[i]);
            assert(mid1.nodes@[i] == mid1.nodes@.subrange(0, pre.nodes@.len() as int)[i]);
        } else if i == pre.nodes@.len() {
            assert(is_const_node(post_sugar.nodes@[i], v));
            assert(post_manual.nodes@[i] == mid1.nodes@[i]);
            assert(mid1.nodes@[i] == mid1.nodes@.last());
            assert(is_const_node(post_manual.nodes@[i], v));
        } else {
            assert(is_binary_op_node(post_sugar.nodes@[i], kind));
            assert(post_manual.nodes@[i] == d);
        }
    }
}

} // verus!
