//! Processing devices: the closed set of units a device graph can evaluate.
//!
//! Every device consumes `n_audio_inputs()` samples and fills
//! `n_audio_outputs()` samples per tick. The scheduler always hands a device
//! a fixed 64-slot input buffer and a pre-zeroed 64-slot output buffer (the
//! hard per-device channel capacity), and `eval_dev` states exactly which
//! bits each device writes.

use crate::scalar::add_bits;
use crate::scalar::add_bits_of;
use crate::scalar::div_bits;
use crate::scalar::div_bits_of;
use crate::scalar::mul_bits;
use crate::scalar::mul_bits_of;
use crate::scalar::sub_bits;
use crate::scalar::sub_bits_of;
use vstd::prelude::*;

verus! {

/// A device that forwards its inputs to its outputs unchanged.
pub struct Passthrough {
    pub n_channels: usize,
}

/// The processing units a device graph can own.
///
/// The set is closed: a unit whose per-tick value needs transcendental
/// floating-point arithmetic (an oscillator, a filter) cannot be evaluated by
/// verified code and lives outside this library, feeding the graph through
/// its external input channels instead.
pub enum Device {
    /// Forwards its `n_channels` inputs unchanged.
    Passthrough(Passthrough),
    /// No inputs; writes a fixed sample on output 0 every tick.
    Constant(u64),
    /// Writes the binary64 sum of inputs 0 and 1 on output 0.
    Add,
    /// Writes the binary64 difference of inputs 0 and 1 on output 0.
    Sub,
    /// Writes the binary64 product of inputs 0 and 1 on output 0.
    Mul,
    /// Writes the binary64 quotient of inputs 0 and 1 on output 0.
    Div,
}

impl Device {
    /// How many input samples the device consumes per tick.
    pub open spec fn spec_n_in(&self) -> nat {
        match self {
            Device::Passthrough(p) => p.n_channels as nat,
            Device::Constant(_) => 0,
            Device::Add => 2,
            Device::Sub => 2,
            Device::Mul => 2,
            Device::Div => 2,
        }
    }

    /// How many output samples the device fills per tick.
    pub open spec fn spec_n_out(&self) -> nat {
        match self {
            Device::Passthrough(p) => p.n_channels as nat,
            Device::Constant(_) => 1,
            Device::Add => 1,
            Device::Sub => 1,
            Device::Mul => 1,
            Device::Div => 1,
        }
    }

    pub fn n_audio_inputs(&self) -> (n: usize)
        ensures
            n == self.spec_n_in(),
    {
        match self {
            Device::Passthrough(p) => p.n_channels,
            Device::Constant(_) => 0,
            Device::Add => 2,
            Device::Sub => 2,
            Device::Mul => 2,
            Device::Div => 2,
        }
    }

    pub fn n_audio_outputs(&self) -> (n: usize)
        ensures
            n == self.spec_n_out(),
    {
        match self {
            Device::Passthrough(p) => p.n_channels,
            Device::Constant(_) => 1,
            Device::Add => 1,
            Device::Sub => 1,
            Device::Mul => 1,
            Device::Div => 1,
        }
    }
}

impl Device {
    /// Consume the 64-slot input buffer and fill the pre-zeroed 64-slot
    /// output buffer for one tick, exactly as `eval_dev` states.
    pub fn process(
        &self,
        sample_clock: u64,
        sample_rate: u64,
        audio_inputs: &Vec<u64>,
        audio_outputs: &mut Vec<u64>,
    )
        requires
            audio_inputs@.len() == 64,
            old(audio_outputs)@.len() == 64,
            forall|k: int| 0 <= k < 64 ==> old(audio_outputs)@[k] == 0u64,
        ensures
            final(audio_outputs)@ == eval_dev(*self, sample_clock, sample_rate, audio_inputs@),
    {
        device_process(self, sample_clock, sample_rate, audio_inputs, audio_outputs)
    }
}

/// A 64-slot buffer of zero samples (the bit pattern of +0.0 is zero).
pub open spec fn zeros64() -> Seq<u64> {
    Seq::new(64, |k: int| 0u64)
}

/// What a device writes into its pre-zeroed 64-slot output buffer, as a
/// function of the sample clock, the sample rate and its 64-slot input
/// buffer. Every device here is stateless: its output depends on these
/// arguments alone.
pub open spec fn eval_dev(d: Device, sample_clock: u64, sample_rate: u64, ins: Seq<u64>) -> Seq<
    u64,
> {
    match d {
        Device::Passthrough(_) => ins,
        Device::Constant(v) => Seq::new(64, |k: int| if k == 0 { v } else { 0u64 }),
        Device::Add => Seq::new(64, |k: int| if k == 0 { add_bits_of(ins[0], ins[1]) } else { 0u64 }),
        Device::Sub => Seq::new(64, |k: int| if k == 0 { sub_bits_of(ins[0], ins[1]) } else { 0u64 }),
        Device::Mul => Seq::new(64, |k: int| if k == 0 { mul_bits_of(ins[0], ins[1]) } else { 0u64 }),
        Device::Div => Seq::new(64, |k: int| if k == 0 { div_bits_of(ins[0], ins[1]) } else { 0u64 }),
    }
}

/// Run one device for one tick: consume the 64-slot input buffer and fill
/// the pre-zeroed 64-slot output buffer exactly as `eval_dev` states.
pub fn device_process(
    d: &Device,
    sample_clock: u64,
    sample_rate: u64,
    audio_inputs: &Vec<u64>,
    audio_outputs: &mut Vec<u64>,
)
    requires
        audio_inputs@.len() == 64,
        old(audio_outputs)@.len() == 64,
        forall|k: int| 0 <= k < 64 ==> old(audio_outputs)@[k] == 0u64,
    ensures
        final(audio_outputs)@ == eval_dev(*d, sample_clock, sample_rate, audio_inputs@),
{
    match d {
        Device::Passthrough(_) => {
            let mut k: usize = 0;
            while k < 64
                invariant
                    k <= 64,
                    audio_inputs@.len() == 64,
                    audio_outputs@.len() == 64,
                    forall|j: int| 0 <= j < k ==> audio_outputs@[j] == audio_inputs@[j],
                decreases 64 - k,
            {
                let v = audio_inputs[k];
                audio_outputs[k] = v;
                k = k + 1;
            }
            assert(audio_outputs@ =~= audio_inputs@);
        },
        Device::Constant(v) => {
            audio_outputs[0] = *v;
            assert(audio_outputs@ =~= eval_dev(*d, sample_clock, sample_rate, audio_inputs@));
        },
        Device::Add => {
            let r = add_bits(audio_inputs[0], audio_inputs[1]);
            audio_outputs[0] = r;
            assert(audio_outputs@ =~= eval_dev(*d, sample_clock, sample_rate, audio_inputs@));
        },
        Device::Sub => {
            let r = sub_bits(audio_inputs[0], audio_inputs[1]);
            audio_outputs[0] = r;
            assert(audio_outputs@ =~= eval_dev(*d, sample_clock, sample_rate, audio_inputs@));
        },
        Device::Mul => {
            let r = mul_bits(audio_inputs[0], audio_inputs[1]);
            audio_outputs[0] = r;
            assert(audio_outputs@ =~= eval_dev(*d, sample_clock, sample_rate, audio_inputs@));
        },
        Device::Div => {
            let r = div_bits(audio_inputs[0], audio_inputs[1]);
            audio_outputs[0] = r;
            assert(audio_outputs@ =~= eval_dev(*d, sample_clock, sample_rate, audio_inputs@));
        },
    }
}

/// Every device here is pure and stateless: for identical inputs and clock,
/// repeated `device_process` calls produce identical outputs, because each
/// call's output equals `eval_dev` of the arguments alone.
pub proof fn lemma_device_idempotent(
    d: Device,
    sample_clock: u64,
    sample_rate: u64,
    ins: Seq<u64>,
    out1: Seq<u64>,
    out2: Seq<u64>,
)
    requires
        out1 == eval_dev(d, sample_clock, sample_rate, ins),
        out2 == eval_dev(d, sample_clock, sample_rate, ins),
    ensures
        out1 == out2,
{
}

} // verus!
