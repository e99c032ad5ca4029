//! The vocabulary shared with the native subsystem: the values that cross the
//! boundary unexamined, and the calls that a node asks to have made.

use vstd::prelude::*;

verus! {

/// A 32-bit floating-point number, held as its IEEE 754 bit pattern. It is
/// carried between the caller and the native subsystem and never computed
/// with.
#[derive(Clone, Copy, Debug, PartialEq, Eq, Structural)]
pub struct Float32 {
    pub bits: u32,
}

impl Float32 {
    /// The number with the given bit pattern.
    pub fn from_bits(bits: u32) -> (x: Float32)
        ensures
            x.bits == bits,
    {
        Float32 { bits }
    }

    /// The bit pattern of this number.
    pub fn to_bits(self) -> (bits: u32)
        ensures
            bits == self.bits,
    {
        self.bits
    }

    /// Positive zero.
    pub open spec fn spec_zero() -> Float32 {
        Float32 { bits: 0 }
    }

    /// Positive zero.
    #[verifier::when_used_as_spec(spec_zero)]
    pub fn zero() -> (x: Float32)
        ensures
            x == Float32::spec_zero(),
    {
        Float32 { bits: 0 }
    }
}

/// A speaker token of the native subsystem, passed through unexamined.
#[derive(Clone, Copy, Debug, PartialEq, Eq, Structural)]
pub struct Speaker {
    pub token: i32,
}

/// A unit-type tag of the native subsystem, passed through unexamined.
#[derive(Clone, Copy, Debug, PartialEq, Eq, Structural)]
pub struct DspType {
    pub token: i32,
}

/// The token of the tag that stands for a unit of unknown type.
pub const DSP_TYPE_UNKNOWN: i32 = 0;

impl DspType {
    /// The tag of a unit whose type is not known.
    pub open spec fn spec_unknown() -> DspType {
        DspType { token: DSP_TYPE_UNKNOWN }
    }

    /// The tag of a unit whose type is not known.
    #[verifier::when_used_as_spec(spec_unknown)]
    pub fn unknown() -> (tag: DspType)
        ensures
            tag == DspType::spec_unknown(),
    {
        DspType { token: DSP_TYPE_UNKNOWN }
    }
}

/// A mask of general memory categories.
#[derive(Clone, Copy, Debug, PartialEq, Eq, Structural)]
pub struct FmodMemoryBits(pub u32);

/// A mask of memory categories of the event subsystem.
#[derive(Clone, Copy, Debug, PartialEq, Eq, Structural)]
pub struct FmodEventMemoryBits(pub u32);

/// How much memory is in use, category by category, in the order in which the
/// native subsystem lists its categories. The numbers are bytes and are
/// passed through as they come.
#[derive(Debug, PartialEq, Eq)]
pub struct FmodMemoryUsageDetails {
    pub bytes_per_category: Vec<u32>,
}

impl View for FmodMemoryUsageDetails {
    type V = Seq<u32>;

    open spec fn view(&self) -> Seq<u32> {
        self.bytes_per_category@
    }
}

/// The native encoding of a switch: 1 for on, 0 for off.
pub open spec fn native_flag(on: bool) -> i32 {
    if on {
        1
    } else {
        0
    }
}

/// What the native subsystem means by a switch value: on where it is 1, off
/// for every other value.
pub open spec fn flag_is_on(value: i32) -> bool {
    value == 1
}

/// A call for the native subsystem to make. Each variant stands for one entry
/// point and holds what is handed to it, the handle of the unit first. What
/// the entry point writes back is not part of the call.
#[derive(Clone, Copy, Debug, PartialEq, Eq, Structural)]
pub enum NativeCall {
    Release { dsp: usize },
    AddInput { dsp: usize, target: usize },
    DisconnectFrom { dsp: usize, target: usize },
    DisconnectAll { dsp: usize, inputs: i32, outputs: i32 },
    Remove { dsp: usize },
    GetNumInputs { dsp: usize },
    GetNumOutputs { dsp: usize },
    GetInput { dsp: usize, index: i32 },
    GetOutput { dsp: usize, index: i32 },
    SetActive { dsp: usize, active: i32 },
    GetActive { dsp: usize },
    SetBypass { dsp: usize, bypass: i32 },
    GetBypass { dsp: usize },
    SetSpeakerActive { dsp: usize, speaker: Speaker, active: i32 },
    GetSpeakerActive { dsp: usize, speaker: Speaker },
    Reset { dsp: usize },
    SetParameter { dsp: usize, index: i32, value: Float32 },
    GetParameter { dsp: usize, index: i32, value_str_len: u32 },
    GetNumParameters { dsp: usize },
    GetParameterInfo { dsp: usize, index: i32, name_len: u32, label_len: u32, description_len: u32 },
    GetInfo { dsp: usize, name_len: u32 },
    SetDefaults { dsp: usize, frequency: Float32, volume: Float32, pan: Float32, priority: i32 },
    GetType { dsp: usize },
    GetDefaults { dsp: usize },
    GetMemoryInfo { dsp: usize, memory_bits: u32, event_memory_bits: u32 },
}

} // verus!
