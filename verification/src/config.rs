use vstd::prelude::*;

verus! {

/// Most output channels a network can drive; extra requested groups fold down.
pub const MAX_CHANNELS: usize = 2;

/// Samples an introspection tap retains (oldest overwritten first).
pub const TAP_CAPACITY: usize = 64;

/// Samples accumulated before one spectral analysis pass.
pub const WINDOW_SIZE: usize = 4096;

/// Lower end of the playable band, in millihertz (0.06 Hz).
pub const MIN_F_MILLIHZ: u32 = 60;

/// Upper end of the playable band, in millihertz (6 kHz).
pub const MAX_F_MILLIHZ: u32 = 6_000_000;

/// Default render rate of the instrument, in hertz.
pub const SAMPLE_RATE_HZ: u32 = 44100;

/// One whole unit in the micro (millionths) fixed-point scale.
pub const UNIT_MICRO: u64 = 1_000_000;

/// How strongly a node's sensitivity scales its excitation gain.
pub const SENSITIVITY_SCALE: u64 = 100_000;

/// Where a node's output is routed when the network drives two channels.
#[derive(Clone, Copy, Debug, PartialEq, Eq, Structural)]
pub enum Pan {
    Left,
    Center,
    Right,
}

/// One virtual string of the instrument: its 1-based position `f_n`, its
/// frequency range in millihertz, and its stereo placement.
#[derive(Clone, Copy, Debug, PartialEq, Eq, Structural)]
pub struct Node {
    pub f_n: usize,
    pub base_mhz: u32,
    pub max_mhz: u32,
    pub pan: Pan,
}

impl Node {
    /// A node's range runs upward from its base frequency.
    pub open spec fn wf(self) -> bool {
        self.base_mhz <= self.max_mhz
    }
}

/// Calibrated parameters for one node: which node (`f_n`, aligned by position
/// with the node list), its center frequency in millihertz, and its
/// sensitivity in millionths of full scale.
#[derive(Clone, Copy, Debug, PartialEq, Eq, Structural)]
pub struct TuningValue {
    pub f_n: usize,
    pub center_mhz: u32,
    pub sensitivity_micro: u32,
}

/// What a network is built for: how many output groups the caller wants and
/// the render rate.  The channel count is the group count folded down to
/// [`MAX_CHANNELS`].
#[derive(Clone, Copy, Debug, PartialEq, Eq, Structural)]
pub struct EngineConfig {
    pub groups: usize,
    pub sample_rate_hz: u32,
}

/// Output channels actually driven for a requested group count.
pub open spec fn spec_channel_count(groups: int) -> int {
    if groups <= MAX_CHANNELS as int {
        groups
    } else {
        MAX_CHANNELS as int
    }
}

impl EngineConfig {
    /// Output channels this configuration will drive.
    pub fn channel_count(&self) -> (c: usize)
        ensures
            c == spec_channel_count(self.groups as int),
    {
        if self.groups <= MAX_CHANNELS {
            self.groups
        } else {
            MAX_CHANNELS
        }
    }
}

/// Why a configuration could not be compiled into a network.
#[derive(Clone, Copy, Debug, PartialEq, Eq, Structural)]
pub enum CompileError {
    /// The (node count, channel count) pair has no wiring plan.
    TopologyUnsupported,
    /// The node and tuning lists differ in length or index alignment.
    NodeTuningMismatch,
    /// A wiring plan left a declared port unconnected.
    IncompleteNetwork,
}

/// Why a rendered block was rejected when handed back to the engine.
#[derive(Clone, Copy, Debug, PartialEq, Eq, Structural)]
pub enum RenderError {
    /// An output buffer's length does not match the expected frame size.
    FrameSizeMismatch,
}

} // verus!
