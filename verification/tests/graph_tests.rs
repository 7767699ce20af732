use papr_graph::device::Device;
use papr_graph::device::Passthrough;
use papr_graph::graph::DeviceGraph;
use papr_graph::GraphError;

fn bits(x: f64) -> u64 {
    x.to_bits()
}

fn val(b: u64) -> f64 {
    f64::from_bits(b)
}

/// A two-input node fed by two constant sources through a sub node yields
/// `1.0 - 2.0 = -1.0` on every tick.
#[test]
fn sub_of_two_constants() {
    let mut g = DeviceGraph::new();
    let c1 = g.add_device("one", Device::Constant(bits(1.0)));
    let c2 = g.add_device("two", Device::Constant(bits(2.0)));
    let s = g.add_device("sub", Device::Sub);
    g.connect(c1, 0, s, 0, bits(1.0));
    g.connect(c2, 0, s, 1, bits(1.0));
    for clock in 0..4u64 {
        let mut out = vec![0u64];
        let mut ctrl_out: Vec<u64> = Vec::new();
        let r = g.process(bits(clock as f64), bits(48000.0), &Vec::new(), &mut out, &Vec::new(), &mut ctrl_out);
        assert!(r.is_ok());
        assert_eq!(val(out[0]), -1.0);
    }
}

/// The same `-1.0` through an add node with gains `1.0` and `-1.0`.
#[test]
fn add_with_negative_gain() {
    let mut g = DeviceGraph::new();
    let c1 = g.add_device("one", Device::Constant(bits(1.0)));
    let c2 = g.add_device("two", Device::Constant(bits(2.0)));
    let a = g.add_device("mix", Device::Add);
    g.connect(c1, 0, a, 0, bits(1.0));
    g.connect(c2, 0, a, 1, bits(-1.0));
    let mut out = vec![0u64];
    let mut ctrl_out: Vec<u64> = Vec::new();
    let r = g.process(bits(0.0), bits(48000.0), &Vec::new(), &mut out, &Vec::new(), &mut ctrl_out);
    assert!(r.is_ok());
    assert_eq!(val(out[0]), -1.0);
}

/// A single source directly wired to a single sink with gain `g`: the
/// sink's input equals `g × source_output`, here `0.5 × 2.0 = 1.0`.
#[test]
fn single_wire_gain_scales() {
    let mut g = DeviceGraph::new();
    let c = g.add_device("two", Device::Constant(bits(2.0)));
    let p = g.add_device("tap", Device::Passthrough(Passthrough { n_channels: 1 }));
    g.connect(c, 0, p, 0, bits(0.5));
    let mut out = vec![0u64];
    let mut ctrl_out: Vec<u64> = Vec::new();
    let r = g.process(bits(7.0), bits(48000.0), &Vec::new(), &mut out, &Vec::new(), &mut ctrl_out);
    assert!(r.is_ok());
    assert_eq!(val(out[0]), 1.0);
}

/// Exact sums and quotients route through the graph: `1.5 + 2.25 = 3.75`
/// and `1.0 / 4.0 = 0.25`.
#[test]
fn add_and_div_exact_values() {
    let mut g = DeviceGraph::new();
    let c1 = g.add_device("a", Device::Constant(bits(1.5)));
    let c2 = g.add_device("b", Device::Constant(bits(2.25)));
    let a = g.add_device("sum", Device::Add);
    g.connect(c1, 0, a, 0, bits(1.0));
    g.connect(c2, 0, a, 1, bits(1.0));
    let mut out = vec![0u64];
    let mut ctrl_out: Vec<u64> = Vec::new();
    assert!(g.process(bits(0.0), bits(48000.0), &Vec::new(), &mut out, &Vec::new(), &mut ctrl_out).is_ok());
    assert_eq!(val(out[0]), 3.75);

    let mut g2 = DeviceGraph::new();
    let n1 = g2.add_device("num", Device::Constant(bits(1.0)));
    let n2 = g2.add_device("den", Device::Constant(bits(4.0)));
    let d = g2.add_device("ratio", Device::Div);
    g2.connect(n1, 0, d, 0, bits(1.0));
    g2.connect(n2, 0, d, 1, bits(1.0));
    let mut out2 = vec![0u64];
    let mut ctrl_out2: Vec<u64> = Vec::new();
    assert!(g2.process(bits(0.0), bits(48000.0), &Vec::new(), &mut out2, &Vec::new(), &mut ctrl_out2).is_ok());
    assert_eq!(val(out2[0]), 0.25);

    let mut g3 = DeviceGraph::new();
    let m1 = g3.add_device("x", Device::Constant(bits(3.0)));
    let m2 = g3.add_device("y", Device::Constant(bits(0.5)));
    let m = g3.add_device("prod", Device::Mul);
    g3.connect(m1, 0, m, 0, bits(1.0));
    g3.connect(m2, 0, m, 1, bits(1.0));
    let mut out3 = vec![0u64];
    let mut ctrl_out3: Vec<u64> = Vec::new();
    assert!(g3.process(bits(0.0), bits(48000.0), &Vec::new(), &mut out3, &Vec::new(), &mut ctrl_out3).is_ok());
    assert_eq!(val(out3[0]), 1.5);
}

/// A direct self-loop is detected and reported, not silently hung.
#[test]
fn self_cycle_detected() {
    let mut g = DeviceGraph::new();
    let a = g.add_device("a", Device::Add);
    g.connect(a, 0, a, 0, bits(1.0));
    let mut out: Vec<u64> = Vec::new();
    let mut ctrl_out: Vec<u64> = Vec::new();
    let r = g.process(bits(0.0), bits(48000.0), &vec![0u64, 0u64], &mut out, &Vec::new(), &mut ctrl_out);
    assert_eq!(r, Err(GraphError::CycleDetected));
}

/// A two-node feedback loop is detected too.
#[test]
fn two_node_cycle_detected() {
    let mut g = DeviceGraph::new();
    let a = g.add_device("a", Device::Add);
    let b = g.add_device("b", Device::Add);
    g.connect(a, 0, b, 0, bits(1.0));
    g.connect(b, 0, a, 0, bits(1.0));
    let mut out: Vec<u64> = Vec::new();
    let mut ctrl_out: Vec<u64> = Vec::new();
    let r = g.process(bits(0.0), bits(48000.0), &vec![0u64; 4], &mut out, &Vec::new(), &mut ctrl_out);
    assert_eq!(r, Err(GraphError::CycleDetected));
}

/// Channel-cursor accounting: the composite's input count is the sum of
/// its source nodes' inputs, and the output count the sum of its sinks'.
#[test]
fn composite_port_counts() {
    let mut g = DeviceGraph::new();
    let p3 = g.add_device("in3", Device::Passthrough(Passthrough { n_channels: 3 }));
    let p2 = g.add_device("in2", Device::Passthrough(Passthrough { n_channels: 2 }));
    assert_eq!(g.n_audio_inputs(), 5);
    assert_eq!(g.n_audio_outputs(), 5);
    // Wiring both into a mixer makes the mixer the only sink.
    let a = g.add_device("mix", Device::Add);
    g.connect(p3, 0, a, 0, bits(1.0));
    g.connect(p2, 0, a, 1, bits(1.0));
    assert_eq!(g.n_audio_inputs(), 5);
    assert_eq!(g.n_audio_outputs(), 1);
}

/// External inputs are sliced to the source nodes at an advancing cursor:
/// two one-channel sources see channels 0 and 1 respectively.
#[test]
fn external_inputs_route_by_cursor() {
    let mut g = DeviceGraph::new();
    let x = g.add_device("x", Device::Passthrough(Passthrough { n_channels: 1 }));
    let y = g.add_device("y", Device::Passthrough(Passthrough { n_channels: 1 }));
    let a = g.add_device("sum", Device::Add);
    g.connect(x, 0, a, 0, bits(1.0));
    g.connect(y, 0, a, 1, bits(1.0));
    let ins = vec![bits(10.0), bits(32.0)];
    let mut out = vec![0u64];
    let mut ctrl_out: Vec<u64> = Vec::new();
    assert!(g.process(bits(0.0), bits(48000.0), &ins, &mut out, &Vec::new(), &mut ctrl_out).is_ok());
    assert_eq!(val(out[0]), 42.0);
}

/// An empty graph processes successfully and writes nothing.
#[test]
fn empty_graph_ok() {
    let mut g = DeviceGraph::new();
    let mut out = vec![bits(5.0)];
    let mut ctrl_out: Vec<u64> = Vec::new();
    let r = g.process(bits(0.0), bits(48000.0), &Vec::new(), &mut out, &Vec::new(), &mut ctrl_out);
    assert!(r.is_ok());
    assert_eq!(val(out[0]), 5.0);
}

/// Control signals pass through the graph boundary unmodified.
#[test]
fn control_passthrough() {
    let mut g = DeviceGraph::new();
    g.add_device("p", Device::Passthrough(Passthrough { n_channels: 1 }));
    let ctrl_in = vec![bits(1.25), bits(-3.0)];
    let mut ctrl_out = vec![0u64, 0u64];
    let mut out = vec![0u64];
    let ins = vec![0u64];
    assert!(g.process(bits(0.0), bits(48000.0), &ins, &mut out, &ctrl_in, &mut ctrl_out).is_ok());
    assert_eq!(val(ctrl_out[0]), 1.25);
    assert_eq!(val(ctrl_out[1]), -3.0);
}

/// The devices here are stateless: identical inputs and clock give
/// identical outputs across repeated `process` calls.
#[test]
fn repeated_process_is_idempotent() {
    let mut g = DeviceGraph::new();
    let c = g.add_device("c", Device::Constant(bits(0.125)));
    let p = g.add_device("p", Device::Passthrough(Passthrough { n_channels: 1 }));
    g.connect(c, 0, p, 0, bits(3.0));
    let mut first: Vec<u64> = vec![0u64];
    let mut second: Vec<u64> = vec![0u64];
    let mut ctrl_out: Vec<u64> = Vec::new();
    assert!(g.process(bits(9.0), bits(48000.0), &Vec::new(), &mut first, &Vec::new(), &mut ctrl_out).is_ok());
    assert!(g.process(bits(9.0), bits(48000.0), &Vec::new(), &mut second, &Vec::new(), &mut ctrl_out).is_ok());
    assert_eq!(first, second);
    assert_eq!(val(first[0]), 0.375);
}

/// A deeper chain: ((2 + 3) * 4) / 10 through three levels of the
/// fixed-point pass equals 2.0.
#[test]
fn three_level_chain() {
    let mut g = DeviceGraph::new();
    let c2 = g.add_device("two", Device::Constant(bits(2.0)));
    let c3 = g.add_device("three", Device::Constant(bits(3.0)));
    let c4 = g.add_device("four", Device::Constant(bits(4.0)));
    let c10 = g.add_device("ten", Device::Constant(bits(10.0)));
    let sum = g.add_device("sum", Device::Add);
    let prod = g.add_device("prod", Device::Mul);
    let quot = g.add_device("quot", Device::Div);
    g.connect(c2, 0, sum, 0, bits(1.0));
    g.connect(c3, 0, sum, 1, bits(1.0));
    g.connect(sum, 0, prod, 0, bits(1.0));
    g.connect(c4, 0, prod, 1, bits(1.0));
    g.connect(prod, 0, quot, 0, bits(1.0));
    g.connect(c10, 0, quot, 1, bits(1.0));
    let mut out = vec![0u64];
    let mut ctrl_out: Vec<u64> = Vec::new();
    assert!(g.process(bits(0.0), bits(48000.0), &Vec::new(), &mut out, &Vec::new(), &mut ctrl_out).is_ok());
    assert_eq!(val(out[0]), 2.0);
}

/// A generator with a known closed form routed through a one-channel
/// passthrough at unit gain: at every clock the output equals the
/// generator's value exactly; at clock 0 that value is `sin(0) = 0`.
#[test]
fn generator_through_passthrough_matches_closed_form() {
    let mut g = DeviceGraph::new();
    let input = g.add_device("input", Device::Passthrough(Passthrough { n_channels: 1 }));
    let sink = g.add_device("sink", Device::Passthrough(Passthrough { n_channels: 1 }));
    g.connect(input, 0, sink, 0, bits(1.0));
    let sample_rate = 48000.0f64;
    let freq = 440.0f64;
    for clock in [0u64, 1, 12000, 24000] {
        let expect = (clock as f64 * freq * 2.0 * std::f64::consts::PI / sample_rate).sin();
        let ins = vec![bits(expect)];
        let mut out = vec![0u64];
        let mut ctrl_out: Vec<u64> = Vec::new();
        let r = g.process(bits(clock as f64), bits(sample_rate), &ins, &mut out, &Vec::new(), &mut ctrl_out);
        assert!(r.is_ok());
        assert!((val(out[0]) - expect).abs() < 1e-9);
        if clock == 0 {
            assert_eq!(val(out[0]), 0.0);
        }
    }
}

/// When two edges feed the same sink port, the later-inserted edge wins:
/// input gathering applies edges in insertion order, overwriting.
#[test]
fn later_edge_overwrites_same_port() {
    let mut g = DeviceGraph::new();
    let c1 = g.add_device("one", Device::Constant(bits(1.0)));
    let c2 = g.add_device("two", Device::Constant(bits(2.0)));
    let p = g.add_device("tap", Device::Passthrough(Passthrough { n_channels: 1 }));
    g.connect(c1, 0, p, 0, bits(1.0));
    g.connect(c2, 0, p, 0, bits(1.0));
    let mut out = vec![0u64];
    let mut ctrl_out: Vec<u64> = Vec::new();
    assert!(g.process(bits(0.0), bits(48000.0), &Vec::new(), &mut out, &Vec::new(), &mut ctrl_out).is_ok());
    assert_eq!(val(out[0]), 2.0);
}
