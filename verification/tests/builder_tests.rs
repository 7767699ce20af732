use papr_graph::builder::GraphBuilder;
use papr_graph::builder::InputSpec;
use papr_graph::builder::NodeSpec;
use papr_graph::builder::Operand;
use papr_graph::builder::OpKind;
use papr_graph::builder::OutputSpec;
use papr_graph::builder::PortSel;
use papr_graph::builder::ProcKind;
use papr_graph::builtins::BuiltinNode;
use papr_graph::builtins::ParsedCreationArg;
use papr_graph::builtins::ParsedIdent;
use papr_graph::samplers::Sample;
use papr_graph::GraphError;

fn bits(x: f64) -> u64 {
    x.to_bits()
}

fn osc_desc(name: &str) -> NodeSpec {
    NodeSpec {
        name: name.to_owned(),
        inputs: vec![
            InputSpec { name: "freq".to_owned(), default: Some(bits(440.0)) },
            InputSpec { name: "amp".to_owned(), default: None },
        ],
        outputs: vec![OutputSpec { name: "out".to_owned() }],
        proc: ProcKind::Builtin(BuiltinNode::SineOsc),
    }
}

#[test]
fn add_constant_materializes_node() {
    let mut gb = GraphBuilder::new();
    let c = gb.add_constant(bits(2.5));
    assert_eq!(c.id().0, 0);
    assert_eq!(gb.nodes.len(), 1);
    assert_eq!(gb.nodes[0].name, "constant");
    assert_eq!(gb.nodes[0].inputs.len(), 0);
    assert_eq!(gb.nodes[0].outputs.len(), 1);
    assert_eq!(gb.nodes[0].outputs[0].name, "out");
    assert!(matches!(gb.nodes[0].proc, ProcKind::Constant(v) if v == bits(2.5)));
}

#[test]
fn handle_reports_port_counts() {
    let mut gb = GraphBuilder::new();
    let n = gb.add(osc_desc("osc"));
    assert_eq!(n.num_inputs(&gb), 2);
    assert_eq!(n.num_outputs(&gb), 1);
}

/// Connecting by a port's declared name yields the same edge as connecting
/// by its numeric position.
#[test]
fn name_resolution_matches_position() {
    let mut gb1 = GraphBuilder::new();
    let src1 = gb1.add_constant(bits(1.0));
    let osc1 = gb1.add(osc_desc("osc"));
    let r1 = osc1.connect_input(&mut gb1, Operand::Node(src1), PortSel::Idx(0), PortSel::Name("amp".to_owned()));
    assert!(r1.is_ok());

    let mut gb2 = GraphBuilder::new();
    let src2 = gb2.add_constant(bits(1.0));
    let osc2 = gb2.add(osc_desc("osc"));
    let r2 = osc2.connect_input(&mut gb2, Operand::Node(src2), PortSel::Idx(0), PortSel::Idx(1));
    assert!(r2.is_ok());

    assert_eq!(gb1.edges.len(), 1);
    assert_eq!(gb1.edges, gb2.edges);
    assert_eq!(gb1.edges[0].sink_input, 1);
    assert_eq!(gb1.edges[0].source_output, 0);
}

#[test]
fn unknown_port_name_is_rejected() {
    let mut gb = GraphBuilder::new();
    let src = gb.add_constant(bits(1.0));
    let osc = gb.add(osc_desc("osc"));
    let nodes_before = gb.nodes.len();
    let edges_before = gb.edges.len();
    let r = osc.connect_input(&mut gb, Operand::Node(src), PortSel::Idx(0), PortSel::Name("nope".to_owned()));
    assert_eq!(r, Err(GraphError::UnknownPort));
    assert_eq!(gb.nodes.len(), nodes_before);
    assert_eq!(gb.edges.len(), edges_before);
}

#[test]
fn connect_output_by_name() {
    let mut gb = GraphBuilder::new();
    let c = gb.add_constant(bits(1.0));
    let osc = gb.add(osc_desc("osc"));
    let r = c.connect_output(&mut gb, PortSel::Name("out".to_owned()), Operand::Node(osc), PortSel::Name("freq".to_owned()));
    assert!(r.is_ok());
    assert_eq!(gb.edges.len(), 1);
    assert_eq!(gb.edges[0].source.0, c.id().0);
    assert_eq!(gb.edges[0].source_output, 0);
    assert_eq!(gb.edges[0].sink.0, osc.id().0);
    assert_eq!(gb.edges[0].sink_input, 0);
}

/// Building `a.add(2.0)` is observably equivalent to materializing the
/// constant, adding the add-node and wiring inputs 0 and 1 by hand.
#[test]
fn literal_sugar_equals_manual_build() {
    let mut gb1 = GraphBuilder::new();
    let a1 = gb1.add_constant(bits(3.0));
    let n1 = a1.add(&mut gb1, Operand::Lit(bits(2.0)));

    let mut gb2 = GraphBuilder::new();
    let a2 = gb2.add_constant(bits(3.0));
    let c2 = gb2.add_constant(bits(2.0));
    let op2 = gb2.add(NodeSpec {
        name: "add".to_owned(),
        inputs: vec![
            InputSpec { name: "a".to_owned(), default: None },
            InputSpec { name: "b".to_owned(), default: None },
        ],
        outputs: vec![OutputSpec { name: "out".to_owned() }],
        proc: ProcKind::Op(OpKind::Add),
    });
    gb2.connect(a2.id(), 0, op2.id(), 0);
    gb2.connect(c2.id(), 0, op2.id(), 1);

    assert_eq!(n1.id(), op2.id());
    assert_eq!(gb1.edges, gb2.edges);
    assert_eq!(gb1.nodes.len(), gb2.nodes.len());
    for (x, y) in gb1.nodes.iter().zip(gb2.nodes.iter()) {
        assert_eq!(x.name, y.name);
        assert_eq!(x.inputs.len(), y.inputs.len());
        assert_eq!(x.outputs.len(), y.outputs.len());
    }
}

#[test]
fn binary_sugar_wires_operands() {
    let mut gb = GraphBuilder::new();
    let a = gb.add_constant(bits(1.0));
    let b = gb.add_constant(bits(2.0));
    let n = a.mul(&mut gb, Operand::Node(b));
    assert_eq!(gb.nodes.len(), 3);
    assert_eq!(gb.nodes[n.id().0].name, "mul");
    assert_eq!(gb.nodes[n.id().0].inputs[0].name, "a");
    assert_eq!(gb.nodes[n.id().0].inputs[1].name, "b");
    assert_eq!(gb.edges.len(), 2);
    assert_eq!(gb.edges[0].source.0, a.id().0);
    assert_eq!(gb.edges[0].sink_input, 0);
    assert_eq!(gb.edges[1].source.0, b.id().0);
    assert_eq!(gb.edges[1].sink_input, 1);
}

#[test]
fn unary_sugar_builds_node() {
    let mut gb = GraphBuilder::new();
    let a = gb.add_constant(bits(-4.0));
    let n = a.neg(&mut gb);
    assert_eq!(gb.nodes.len(), 2);
    assert_eq!(gb.nodes[n.id().0].name, "neg");
    assert_eq!(gb.nodes[n.id().0].inputs.len(), 1);
    assert_eq!(gb.nodes[n.id().0].inputs[0].name, "in");
    assert_eq!(gb.edges.len(), 1);
    assert_eq!(gb.edges[0].source.0, a.id().0);
    assert_eq!(gb.edges[0].sink.0, n.id().0);
}

#[test]
fn chained_expression_builds_expected_arena() {
    let mut gb = GraphBuilder::new();
    let a = gb.add_constant(bits(1.0));
    let n = a.add(&mut gb, Operand::Lit(bits(2.0))).sqrt(&mut gb);
    assert_eq!(gb.nodes.len(), 4);
    assert_eq!(gb.nodes[n.id().0].name, "sqrt");
    assert_eq!(gb.edges.len(), 3);
}

#[test]
fn builtin_idents_resolve() {
    assert_eq!(BuiltinNode::try_from_ident(&ParsedIdent("Sin".to_owned())), Some(BuiltinNode::Sine));
    assert_eq!(BuiltinNode::try_from_ident(&ParsedIdent("Cos".to_owned())), Some(BuiltinNode::Cosine));
    assert_eq!(BuiltinNode::try_from_ident(&ParsedIdent("SawOsc".to_owned())), Some(BuiltinNode::BlSawOsc));
    assert_eq!(BuiltinNode::try_from_ident(&ParsedIdent("M2F".to_owned())), Some(BuiltinNode::MidiToFreq));
    assert_eq!(BuiltinNode::try_from_ident(&ParsedIdent("Slider".to_owned())), Some(BuiltinNode::Slider));
    assert_eq!(BuiltinNode::try_from_ident(&ParsedIdent("nonsense".to_owned())), None);
    assert_eq!(BuiltinNode::try_from_ident(&ParsedIdent("sin".to_owned())), None);
}

#[test]
fn builtin_default_args() {
    let slider = BuiltinNode::Slider.default_creation_args();
    assert_eq!(slider.len(), 2);
    assert!(matches!(slider[0], ParsedCreationArg::Scalar(v) if v == bits(0.0)));
    assert!(matches!(slider[1], ParsedCreationArg::Scalar(v) if v == bits(1.0)));
    let button = BuiltinNode::Button.default_creation_args();
    assert_eq!(button.len(), 1);
    assert!(BuiltinNode::Sine.default_creation_args().is_empty());
}

#[test]
fn sample_node_shape_and_playback() {
    let samples: Vec<u64> = (0..8).map(|i| bits(i as f64 * 0.5)).collect();
    let desc = Sample::create_node("kick", samples.clone());
    assert_eq!(desc.name, "kick");
    assert_eq!(desc.inputs.len(), 1);
    assert_eq!(desc.inputs[0].name, "seek");
    assert_eq!(desc.inputs[0].default, Some(bits(0.0)));
    assert_eq!(desc.outputs[0].name, "out");
    assert_eq!(desc.outputs[1].name, "len");

    let player = match desc.proc {
        ProcKind::Sampler(s) => s,
        _ => panic!("expected a sampler payload"),
    };
    // seek 1.5 s at rate 4.0 → cell 6 → sample 3.0; len = 8 / 4 = 2 s.
    let inputs = vec![bits(1.5)];
    let mut outputs = vec![0u64, 0u64, bits(9.0)];
    let r = player.process_sample(0, bits(4.0), &inputs, &mut outputs);
    assert!(r.is_ok());
    assert_eq!(f64::from_bits(outputs[0]), 3.0);
    assert_eq!(f64::from_bits(outputs[1]), 2.0);
    assert_eq!(f64::from_bits(outputs[2]), 9.0);
}

#[test]
fn sample_seek_out_of_range() {
    let player = Sample { buf: vec![bits(1.0); 4] };
    let inputs = vec![bits(100.0)];
    let mut outputs = vec![0u64, 0u64];
    let r = player.process_sample(0, bits(4.0), &inputs, &mut outputs);
    assert_eq!(r, Err(GraphError::SeekOutOfRange));
    assert_eq!(outputs, vec![0u64, 0u64]);
}

#[test]
fn operand_by_raw_identifier() {
    let mut gb = GraphBuilder::new();
    let a = gb.add_constant(bits(5.0));
    let b = gb.add_constant(bits(7.0));
    let n = a.sub(&mut gb, Operand::Id(b.id()));
    assert_eq!(gb.nodes[n.id().0].name, "sub");
    assert_eq!(gb.edges.len(), 2);
    assert_eq!(gb.edges[1].source, b.id());
}

#[test]
fn transcendental_sugar_names() {
    let mut gb = GraphBuilder::new();
    let a = gb.add_constant(bits(1.0));
    let p = a.powf(&mut gb, Operand::Lit(bits(2.0)));
    let t = p.atan2(&mut gb, Operand::Node(a));
    let f = t.fract(&mut gb);
    assert_eq!(gb.nodes[p.id().0].name, "powf");
    assert_eq!(gb.nodes[t.id().0].name, "atan2");
    assert_eq!(gb.nodes[f.id().0].name, "fract");
}

#[test]
fn connect_output_to_literal_input_by_name_fails() {
    let mut gb = GraphBuilder::new();
    let a = gb.add_constant(bits(1.0));
    let before = gb.nodes.len();
    // A literal materializes as a constant node, which declares no inputs:
    // a named input can never resolve on it.
    let r = a.connect_output(&mut gb, PortSel::Idx(0), Operand::Lit(bits(2.0)), PortSel::Name("in".to_owned()));
    assert_eq!(r, Err(GraphError::UnknownPort));
    assert_eq!(gb.nodes.len(), before);
}
