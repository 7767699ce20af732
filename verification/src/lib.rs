//! A real-time audio signal-processing graph library.
//!
//! Audio samples are IEEE-754 binary64 values carried as their raw `u64` bit
//! patterns, so that the graph logic itself is fully verified; the arithmetic
//! on samples is delegated to a software floating-point implementation behind
//! a small set of trusted wrappers (see `scalar`).

use vstd::prelude::*;

pub mod builder;
pub mod builtins;
pub mod device;
pub mod graph;
pub mod samplers;
pub mod scalar;

verus! {

/// Hard per-device channel limits: each node's transient output buffer has
/// this fixed capacity, so that evaluating a graph never allocates per sample.
pub const MAX_AUDIO_INPUTS_PER_DEVICE: usize = 64;

pub const MAX_AUDIO_OUTPUTS_PER_DEVICE: usize = 64;

/// Errors surfaced by graph construction and evaluation.
#[derive(Clone, Copy, Debug, PartialEq, Eq, Structural)]
pub enum GraphError {
    /// The fixed-point scheduler could not resolve every node: the graph has
    /// a cycle (or a node is otherwise starved of its inputs forever).
    CycleDetected,
    /// A port was selected by a name that the node does not declare.
    UnknownPort,
    /// A sample-playback seek position fell outside the sample buffer.
    SeekOutOfRange,
}

} // verus!
