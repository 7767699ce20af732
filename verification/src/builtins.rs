//! The catalog of builtin processor kinds that a parsed program can name.
//!
//! The catalog itself (oscillators, filters, UI widgets, ...) is an external
//! collaborator; this module holds the kind tags, the mapping from source
//! identifiers to kinds, and each kind's default creation arguments.

use vstd::prelude::*;

verus! {

/// An identifier as it appears in a parsed program.
pub struct ParsedIdent(pub String);

/// A creation argument for a builtin node: a binary64 scalar (as its bit
/// pattern) or a piece of text such as a file path.
#[derive(Clone)]
pub enum ParsedCreationArg {
    Scalar(u64),
    Text(String),
}

/// The processor kinds that a program can instantiate by name, plus a few
/// kinds that only the graph machinery itself creates.
#[derive(Clone, Copy, Debug, PartialEq, Eq, Structural, Hash)]
pub enum BuiltinNode {
    Sine,
    Cosine,
    Tanh,
    Exp,
    Abs,
    FmSineOsc,
    SineOsc,
    BlSawOsc,
    BlSquareOsc,
    MidiToFreq,
    Clock,
    Delay,
    NoteIn,
    RisingEdge,
    FallingEdge,
    Var,
    Max,
    Min,
    Clip,
    Debug,
    If,
    Not,
    Sample,
    Noise,
    Ladder,
    Slider,
    Button,
    Toggle,
    Led,
    Constant,
    Dac0,
    Add,
    Sub,
    Mul,
    Div,
    VariableInput,
}

/// The bit pattern of the binary64 value 1.0.
pub const F64_ONE_BITS: u64 = 0x3FF0000000000000;

/// The bit pattern of the binary64 value 0.0.
pub const F64_ZERO_BITS: u64 = 0;

/// Which builtin kind, if any, a source identifier names.
pub open spec fn spec_builtin_of(s: Seq<char>) -> Option<BuiltinNode> {
    if s == "Sin"@ {
        Some(BuiltinNode::Sine)
    } else if s == "Cos"@ {
        Some(BuiltinNode::Cosine)
    } else if s == "Exp"@ {
        Some(BuiltinNode::Exp)
    } else if s == "Tanh"@ {
        Some(BuiltinNode::Tanh)
    } else if s == "Abs"@ {
        Some(BuiltinNode::Abs)
    } else if s == "SineFm"@ {
        Some(BuiltinNode::FmSineOsc)
    } else if s == "SineOsc"@ {
        Some(BuiltinNode::SineOsc)
    } else if s == "SawOsc"@ {
        Some(BuiltinNode::BlSawOsc)
    } else if s == "SquareOsc"@ {
        Some(BuiltinNode::BlSquareOsc)
    } else if s == "M2F"@ {
        Some(BuiltinNode::MidiToFreq)
    } else if s == "Clock"@ {
        Some(BuiltinNode::Clock)
    } else if s == "Delay"@ {
        Some(BuiltinNode::Delay)
    } else if s == "NoteIn"@ {
        Some(BuiltinNode::NoteIn)
    } else if s == "Redge"@ {
        Some(BuiltinNode::RisingEdge)
    } else if s == "Fedge"@ {
        Some(BuiltinNode::FallingEdge)
    } else if s == "Var"@ {
        Some(BuiltinNode::Var)
    } else if s == "Max"@ {
        Some(BuiltinNode::Max)
    } else if s == "Min"@ {
        Some(BuiltinNode::Min)
    } else if s == "Clip"@ {
        Some(BuiltinNode::Clip)
    } else if s == "Debug"@ {
        Some(BuiltinNode::Debug)
    } else if s == "If"@ {
        Some(BuiltinNode::If)
    } else if s == "Not"@ {
        Some(BuiltinNode::Not)
    } else if s == "Sample"@ {
        Some(BuiltinNode::Sample)
    } else if s == "Noise"@ {
        Some(BuiltinNode::Noise)
    } else if s == "Ladder"@ {
        Some(BuiltinNode::Ladder)
    } else if s == "Slider"@ {
        Some(BuiltinNode::Slider)
    } else if s == "Button"@ {
        Some(BuiltinNode::Button)
    } else if s == "Toggle"@ {
        Some(BuiltinNode::Toggle)
    } else if s == "Led"@ {
        Some(BuiltinNode::Led)
    } else {
        None
    }
}

/// The default creation arguments of each kind: a slider takes its range,
/// a button or toggle its initial value, everything else nothing.
pub open spec fn spec_default_creation_args(b: BuiltinNode) -> Seq<ParsedCreationArg> {
    match b {
        BuiltinNode::Slider => seq![
            ParsedCreationArg::Scalar(F64_ZERO_BITS),
            ParsedCreationArg::Scalar(F64_ONE_BITS),
        ],
        BuiltinNode::Button => seq![ParsedCreationArg::Scalar(F64_ZERO_BITS)],
        BuiltinNode::Toggle => seq![ParsedCreationArg::Scalar(F64_ZERO_BITS)],
        _ => Seq::empty(),
    }
}

impl BuiltinNode {
    /// Which builtin kind, if any, the given source identifier names.
    pub fn try_from_ident(id: &ParsedIdent) -> (r: Option<BuiltinNode>)
        ensures
            r == spec_builtin_of(id.0@),
    {
        if id.0 == "Sin".to_owned() {
            Some(BuiltinNode::Sine)
        } else if id.0 == "Cos".to_owned() {
            Some(BuiltinNode::Cosine)
        } else if id.0 == "Exp".to_owned() {
            Some(BuiltinNode::Exp)
        } else if id.0 == "Tanh".to_owned() {
            Some(BuiltinNode::Tanh)
        } else if id.0 == "Abs".to_owned() {
            Some(BuiltinNode::Abs)
        } else if id.0 == "SineFm".to_owned() {
            Some(BuiltinNode::FmSineOsc)
        } else if id.0 == "SineOsc".to_owned() {
            Some(BuiltinNode::SineOsc)
        } else if id.0 == "SawOsc".to_owned() {
            Some(BuiltinNode::BlSawOsc)
        } else if id.0 == "SquareOsc".to_owned() {
            Some(BuiltinNode::BlSquareOsc)
        } else if id.0 == "M2F".to_owned() {
            Some(BuiltinNode::MidiToFreq)
        } else if id.0 == "Clock".to_owned() {
            Some(BuiltinNode::Clock)
        } else if id.0 == "Delay".to_owned() {
            Some(BuiltinNode::Delay)
        } else if id.0 == "NoteIn".to_owned() {
            Some(BuiltinNode::NoteIn)
        } else if id.0 == "Redge".to_owned() {
            Some(BuiltinNode::RisingEdge)
        } else if id.0 == "Fedge".to_owned() {
            Some(BuiltinNode::FallingEdge)
        } else if id.0 == "Var".to_owned() {
            Some(BuiltinNode::Var)
        } else if id.0 == "Max".to_owned() {
            Some(BuiltinNode::Max)
        } else if id.0 == "Min".to_owned() {
            Some(BuiltinNode::Min)
        } else if id.0 == "Clip".to_owned() {
            Some(BuiltinNode::Clip)
        } else if id.0 == "Debug".to_owned() {
            Some(BuiltinNode::Debug)
        } else if id.0 == "If".to_owned() {
            Some(BuiltinNode::If)
        } else if id.0 == "Not".to_owned() {
            Some(BuiltinNode::Not)
        } else if id.0 == "Sample".to_owned() {
            Some(BuiltinNode::Sample)
        } else if id.0 == "Noise".to_owned() {
            Some(BuiltinNode::Noise)
        } else if id.0 == "Ladder".to_owned() {
            Some(BuiltinNode::Ladder)
        } else if id.0 == "Slider".to_owned() {
            Some(BuiltinNode::Slider)
        } else if id.0 == "Button".to_owned() {
            Some(BuiltinNode::Button)
        } else if id.0 == "Toggle".to_owned() {
            Some(BuiltinNode::Toggle)
        } else if id.0 == "Led".to_owned() {
            Some(BuiltinNode::Led)
        } else {
            None
        }
    }

    /// The default creation arguments of this kind. A sample player and a
    /// constant have no defaults: their arguments are always explicit, and
    /// asking for defaults for them is a programming error.
    pub fn default_creation_args(&self) -> (r: Vec<ParsedCreationArg>)
        requires
            !(self is Sample),
            !(self is Constant),
        ensures
            r@ == spec_default_creation_args(*self),
    {
        let mut v: Vec<ParsedCreationArg> = Vec::new();
        match self {
            BuiltinNode::Slider => {
                v.push(ParsedCreationArg::Scalar(F64_ZERO_BITS));
                v.push(ParsedCreationArg::Scalar(F64_ONE_BITS));
            },
            BuiltinNode::Button => {
                v.push(ParsedCreationArg::Scalar(F64_ZERO_BITS));
            },
            BuiltinNode::Toggle => {
                v.push(ParsedCreationArg::Scalar(F64_ZERO_BITS));
            },
            _ => {},
        }
        assert(v@ =~= spec_default_creation_args(*self));
        v
    }
}

} // verus!
