//! Core of a touch-played chime instrument: compiles a set of virtual string
//! nodes and their tuning into a concrete signal-network plan, drives that
//! network once per audio block, and analyzes captured ambient audio to derive
//! per-node tuning values.
//!
//! All frequencies are carried in millihertz and all gains in millionths, so
//! that every decision the engine makes is exact integer arithmetic.  Audio
//! samples are opaque 32-bit words: the engine routes and buffers them but
//! never interprets them; the surrounding shell owns the sample format and the
//! floating-point signal processing itself.

use vstd::prelude::*;

mod clock;
pub mod config;
pub mod engine;
pub mod graph;
pub mod spectrum;
pub mod streamer;
pub mod tap;
pub mod topology;
pub mod tuner;
pub mod window;

pub use clock::Clock;
pub use config::{CompileError, EngineConfig, Node, Pan, RenderError, TuningValue};
pub use engine::{Effect, Engine, PlayOperation, PlayOperationOutput, Response, State, ViewModel};
pub use graph::{compile, Network};
pub use spectrum::{restrict_frame, SpectrumFrame};
pub use streamer::StreamerUnit;
pub use tap::Tap;
pub use topology::{TopologyTable, WiringPlan};
pub use tuner::Tuner;
pub use window::Window;

verus! {

/// One audio sample as an opaque 32-bit word.  The engine moves, buffers and
/// counts samples; only the shell interprets them as its sample format.
pub type Sample = u32;

} // verus!
