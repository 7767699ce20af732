//! Sample playback: a node that plays a decoded audio buffer.
//!
//! Decoding an audio file is I/O and happens outside the library; the
//! decoded first-channel samples arrive here as plain binary64 bit
//! patterns. The node declares a `seek` input (seconds into the buffer) and
//! `out` / `len` outputs: the sample under the seek position, and the
//! buffer's length in seconds.

use crate::builder::InputSpec;
use crate::builder::NodeSpec;
use crate::builder::OutputSpec;
use crate::builder::ProcKind;
use crate::scalar::div_bits;
use crate::scalar::div_bits_of;
use crate::scalar::mul_bits;
use crate::scalar::mul_bits_of;
use crate::scalar::trunc_bits_to_u64;
use crate::scalar::trunc_u64_of;
use crate::scalar::u64_to_bits;
use crate::scalar::u64_to_bits_of;
use crate::GraphError;
use vstd::prelude::*;

verus! {

/// A sample player: the decoded audio buffer it plays, one binary64 bit
/// pattern per frame.
pub struct Sample {
    pub buf: Vec<u64>,
}

/// The buffer cell a seek position names: the seek value times the signal
/// rate, truncated toward zero.
pub open spec fn spec_seek_cell(seek: u64, signal_rate: u64) -> u64 {
    trunc_u64_of(mul_bits_of(seek, signal_rate))
}

impl Sample {
    /// Build the sample-player node descriptor around an already decoded
    /// buffer: a `seek` input defaulting to 0.0, and `out` / `len`
    /// outputs.
    pub fn create_node(name: &str, samples: Vec<u64>) -> (n: NodeSpec)
        ensures
            n.name@ == name@,
            n.inputs@.len() == 1,
            n.inputs@[0].name@ == "seek"@,
            n.inputs@[0].default == Some(0u64),
            n.outputs@.len() == 2,
            n.outputs@[0].name@ == "out"@,
            n.outputs@[1].name@ == "len"@,
            n.proc matches ProcKind::Sampler(s) && s.buf@ == samples@,
    {
        let mut inputs: Vec<InputSpec> = Vec::new();
        inputs.push(InputSpec { name: "seek".to_owned(), default: Some(0u64) });
        let mut outputs: Vec<OutputSpec> = Vec::new();
        outputs.push(OutputSpec { name: "out".to_owned() });
        outputs.push(OutputSpec { name: "len".to_owned() });
        NodeSpec {
            name: name.to_owned(),
            inputs,
            outputs,
            proc: ProcKind::Sampler(Sample { buf: samples }),
        }
    }

    /// Play one tick: read the sample under the seek position (input 0)
    /// into output 0, and the buffer length in seconds into output 1. A
    /// seek position outside the buffer is reported, not read.
    pub fn process_sample(
        &self,
        _buffer_idx: usize,
        signal_rate: u64,
        inputs: &Vec<u64>,
        outputs: &mut Vec<u64>,
    ) -> (r: Result<(), GraphError>)
        requires
            inputs@.len() >= 1,
            old(outputs)@.len() >= 2,
        ensures
            final(outputs)@.len() == old(outputs)@.len(),
            r is Ok <==> spec_seek_cell(inputs@[0], signal_rate) < self.buf@.len(),
            r is Ok ==> {
                &&& final(outputs)@[0] == self.buf@[spec_seek_cell(inputs@[0], signal_rate) as int]
                &&& final(outputs)@[1] == div_bits_of(
                    u64_to_bits_of(self.buf@.len() as u64),
                    signal_rate,
                )
                &&& forall|q: int|
                    2 <= q < final(outputs)@.len() ==> final(outputs)@[q] == old(outputs)@[q]
            },
            r is Err ==> *final(outputs) == *old(outputs) && r->Err_0
                == GraphError::SeekOutOfRange,
    {
        let seek = inputs[0];
        let seek_cell = trunc_bits_to_u64(mul_bits(seek, signal_rate));
        if seek_cell >= self.buf.len() as u64 {
            return Err(GraphError::SeekOutOfRange);
        }
        let v = self.buf[seek_cell as usize];
        outputs[0] = v;
        let len_bits = u64_to_bits(self.buf.len() as u64);
        let w = div_bits(len_bits, signal_rate);
        outputs[1] = w;
        Ok(())
    }
}

} // verus!
