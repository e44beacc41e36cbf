use vstd::prelude::*;

use crate::config::{CompileError, EngineConfig, Node, RenderError, TuningValue};
use crate::config::spec_channel_count;
use crate::graph::{compile, lemma_mono_split_always_ok, spec_aligned, spec_split_ok, Network};
use crate::spectrum::{restrict_frame, spec_restrict, SpectrumFrame};
use crate::tap::spec_tap_push_all;
use crate::topology::table_supports;
use crate::window::{spec_windows, spec_windows_rest, Window};
use crate::Sample;

verus! {

/// Where the engine stands: it renders or captures only once a network is
/// compiled, and never both at once.
#[derive(Clone, Copy, Debug, PartialEq, Eq, Structural)]
pub enum State {
    /// No network has been compiled yet.
    Uninitialized,
    /// A network is ready; no block has been rendered since it was built.
    Compiled,
    /// Blocks run through the network and produce output.
    Rendering,
    /// Output is muted; input blocks feed the spectral analyzer instead.
    Capturing,
}

/// Everything the surrounding shell can ask of the engine.
#[derive(Debug)]
pub enum PlayOperation {
    Permissions,
    InstallAU,
    Suspend,
    Resume,
    /// Enter (`true`) or leave (`false`) capture mode.
    Capture(bool),
    QueryInputDevices,
    QueryOutputDevices,
    /// Replace the network: full recompilation from config, nodes and tuning.
    Config(EngineConfig, Vec<Node>, Vec<TuningValue>),
    /// One block of input samples, one inner vector per input channel.
    Input(Vec<Vec<Sample>>),
    /// Drain the introspection taps for UI feedback.
    SendSnoops,
}

/// The engine's answer to an operation that only succeeds or fails.
#[derive(Clone, Copy, Debug, PartialEq, Eq, Structural)]
pub enum PlayOperationOutput {
    Success,
    Failure,
}

/// Outside work the engine asks the shell to perform.  The shell owns the
/// floating-point signal processing; the engine owns every decision.
#[derive(Debug, PartialEq, Eq)]
pub enum Effect {
    /// Refresh whatever view of the engine the shell presents.
    Render,
    /// Answer the operation that was just processed.
    Resolve(PlayOperationOutput),
    /// Run the compiled network over the pending input block and hand the
    /// output back through [`Response::RenderedBlock`].
    RunBlock { frame_size: usize },
    /// Analyze one full capture window off the render path and hand the
    /// spectrum back through [`Response::Spectrum`].
    Analyze(Vec<Sample>),
    /// A freshly band-restricted spectrum for tuning feedback.
    CaptureFft(SpectrumFrame),
    /// Per-channel tap snapshots, channel 0 first.
    CaptureData(Vec<Vec<Sample>>),
    /// Per-node tap snapshots, each with its node's position.
    CaptureNodesData(Vec<(usize, Vec<Sample>)>),
}

/// Deferred results the shell hands back after performing an effect.
#[derive(Debug)]
pub enum Response {
    /// The outputs of one [`Effect::RunBlock`], one inner vector per output
    /// channel, plus each per-node unit's output block for its tap.
    RenderedBlock { outputs: Vec<Vec<Sample>>, node_outputs: Vec<Vec<Sample>> },
    /// The spectrum computed for one [`Effect::Analyze`] window, as
    /// (frequency millihertz, magnitude millionths) pairs in bin order.
    Spectrum(Vec<(u32, u64)>),
}

/// The engine's presentable state: the most recent output block per channel.
#[derive(Debug)]
pub struct ViewModel(pub Vec<Vec<Sample>>);

/// The first input channel of a block, or nothing when the block is empty.
pub open spec fn spec_first_channel(input: Seq<Vec<Sample>>) -> Seq<Sample> {
    if input.len() > 0 {
        input[0]@
    } else {
        Seq::empty()
    }
}

/// Whether compiling this configuration succeeds.
pub open spec fn spec_config_ok(config: EngineConfig, nodes: Seq<Node>, tuning: Seq<
    TuningValue,
>) -> bool {
    let c = spec_channel_count(config.groups as int);
    &&& spec_aligned(nodes, tuning)
    &&& table_supports(nodes.len() as int, c)
    &&& spec_split_ok(nodes, c)
}

/// The error a failing compilation reports, in the order the compiler
/// checks: alignment, then the topology table, then connectivity.
pub open spec fn spec_compile_err(config: EngineConfig, nodes: Seq<Node>, tuning: Seq<
    TuningValue,
>) -> CompileError {
    let c = spec_channel_count(config.groups as int);
    if !spec_aligned(nodes, tuning) {
        CompileError::NodeTuningMismatch
    } else if !table_supports(nodes.len() as int, c) {
        CompileError::TopologyUnsupported
    } else {
        CompileError::IncompleteNetwork
    }
}

/// A single-channel shape from the topology table compiles from any aligned
/// node and tuning data: with one output bus the pan assignment can never
/// leave a port unfilled, so configuration can only fail on misalignment or
/// an unlisted shape.
pub proof fn lemma_mono_config_always_ok(
    config: EngineConfig,
    nodes: Seq<Node>,
    tuning: Seq<TuningValue>,
)
    requires
        spec_channel_count(config.groups as int) == 1,
        table_supports(nodes.len() as int, 1),
        spec_aligned(nodes, tuning),
    ensures
        spec_config_ok(config, nodes, tuning),
{
    lemma_mono_split_always_ok(nodes);
}

/// The audio engine: a compiled network, the capture window, and the engine
/// state machine.  It decides; the shell performs.
#[derive(Debug)]
pub struct Engine {
    pub state: State,
    pub network: Option<Network>,
    pub window: Window,
    pub frame_size: usize,
    pub audio_data: Vec<Vec<Sample>>,
    pub spectrum: Option<SpectrumFrame>,
    pub last_error: Option<CompileError>,
}

impl Engine {
    /// A network exists exactly outside `Uninitialized`, and everything owned
    /// is internally consistent.
    pub open spec fn wf(self) -> bool {
        &&& self.window.wf()
        &&& (self.network is Some <==> !(self.state is Uninitialized))
        &&& (self.network matches Some(net) ==> net.wf())
    }

    /// A fresh engine with nothing compiled.
    pub fn new() -> (e: Engine)
        ensures
            e.wf(),
            e.state is Uninitialized,
            e.network is None,
            e.frame_size == 0,
            e.audio_data@.len() == 0,
            e.window.buf@ == Seq::<Sample>::empty(),
            e.spectrum is None,
            e.last_error is None,
    {
        Engine {
            state: State::Uninitialized,
            network: None,
            window: Window::new(),
            frame_size: 0,
            audio_data: Vec::new(),
            spectrum: None,
            last_error: None,
        }
    }

    /// Processes one operation from the shell and returns the effects the
    /// shell must perform.
    ///
    /// `Config` atomically replaces the network or, on any compile failure,
    /// leaves the engine exactly as it was and records the error.  `Input`
    /// feeds the capture window in capture mode (emitting one `Analyze`
    /// effect per filled window) and otherwise schedules one `RunBlock` for
    /// the block's frame size.  `Capture` switches mode and fails only before
    /// the first compilation.  `SendSnoops` snapshots every tap without
    /// touching engine state.  Everything else resolves as handled.
    pub fn process_event(&mut self, op: PlayOperation) -> (effects: Vec<Effect>)
        requires
            old(self).wf(),
            op matches PlayOperation::Config(config, nodes, tuning) ==> forall|i: int|
                0 <= i < nodes@.len() ==> (#[trigger] nodes@[i]).wf(),
        ensures
            final(self).wf(),
            match op {
                PlayOperation::Config(config, nodes, tuning) => {
                    &&& (spec_config_ok(config, nodes@, tuning@) ==> {
                        &&& final(self).state is Compiled
                        &&& (final(self).network matches Some(net) && net.built_from(
                            config,
                            nodes@,
                            tuning@,
                        ))
                        &&& final(self).last_error is None
                        &&& effects@.len() == 2
                        &&& effects@[0] is Render
                        &&& effects@[1] == Effect::Resolve(PlayOperationOutput::Success)
                    })
                    &&& (!spec_config_ok(config, nodes@, tuning@) ==> {
                        &&& final(self).state == old(self).state
                        &&& final(self).network == old(self).network
                        &&& (final(self).last_error matches Some(e) && e == spec_compile_err(
                            config,
                            nodes@,
                            tuning@,
                        ))
                        &&& effects@.len() == 1
                        &&& effects@[0] == Effect::Resolve(PlayOperationOutput::Failure)
                    })
                    &&& final(self).window == old(self).window
                    &&& final(self).frame_size == old(self).frame_size
                    &&& final(self).audio_data == old(self).audio_data
                    &&& final(self).spectrum == old(self).spectrum
                },
                PlayOperation::Input(input) => match old(self).state {
                    State::Capturing => {
                        let data = old(self).window.buf@ + spec_first_channel(input@);
                        &&& final(self).window.buf@ == spec_windows_rest(data)
                        &&& effects@.len() == spec_windows(data).len()
                        &&& forall|k: int|
                            0 <= k < effects@.len() ==> ((#[trigger] effects@[k]) matches
                                Effect::Analyze(w)
                                && w@ == spec_windows(data)[k])
                        &&& final(self).state == old(self).state
                        &&& final(self).network == old(self).network
                        &&& final(self).frame_size == old(self).frame_size
                        &&& final(self).audio_data == old(self).audio_data
                        &&& final(self).spectrum == old(self).spectrum
                        &&& final(self).last_error == old(self).last_error
                    },
                    State::Uninitialized => {
                        &&& *final(self) == *old(self)
                        &&& effects@.len() == 0
                    },
                    _ => {
                        &&& final(self).frame_size == spec_first_channel(input@).len()
                        &&& effects@.len() == 1
                        &&& (effects@[0] matches Effect::RunBlock { frame_size } && frame_size
                            == spec_first_channel(input@).len())
                        &&& final(self).state == old(self).state
                        &&& final(self).network == old(self).network
                        &&& final(self).window == old(self).window
                        &&& final(self).audio_data == old(self).audio_data
                        &&& final(self).spectrum == old(self).spectrum
                        &&& final(self).last_error == old(self).last_error
                    },
                },
                PlayOperation::Capture(capturing) => {
                    &&& (old(self).state is Uninitialized ==> {
                        &&& *final(self) == *old(self)
                        &&& effects@.len() == 1
                        &&& effects@[0] == Effect::Resolve(PlayOperationOutput::Failure)
                    })
                    &&& (!(old(self).state is Uninitialized) ==> {
                        &&& final(self).state == if capturing {
                            State::Capturing
                        } else {
                            State::Compiled
                        }
                        &&& final(self).network == old(self).network
                        &&& final(self).window == old(self).window
                        &&& final(self).frame_size == old(self).frame_size
                        &&& final(self).audio_data == old(self).audio_data
                        &&& final(self).spectrum == old(self).spectrum
                        &&& final(self).last_error == old(self).last_error
                        &&& effects@.len() == 1
                        &&& effects@[0] == Effect::Resolve(PlayOperationOutput::Success)
                    })
                },
                PlayOperation::SendSnoops => {
                    &&& *final(self) == *old(self)
                    &&& match old(self).network {
                        Option::None => effects@.len() == 0,
                        Option::Some(net) => {
                            &&& effects@.len() == 2
                            &&& (effects@[0] matches Effect::CaptureData(chans) && chans@.len()
                                == net.channel_count && (forall|b: int|
                                0 <= b < chans@.len() ==> (#[trigger] chans@[b])@ == net.taps@[net.node_count
                                    + b]@))
                            &&& (effects@[1] matches Effect::CaptureNodesData(ds) && ds@.len()
                                == net.node_count && (forall|i: int|
                                0 <= i < ds@.len() ==> (#[trigger] ds@[i]).0
                                    == net.units@[i].f_n && ds@[i].1@ == net.taps@[i]@))
                        },
                    }
                },
                _ => {
                    &&& *final(self) == *old(self)
                    &&& effects@.len() == 1
                    &&& effects@[0] == Effect::Resolve(PlayOperationOutput::Success)
                },
            },
    {
        match op {
            PlayOperation::Config(config, nodes, tuning) => {
                let mut effects: Vec<Effect> = Vec::new();
                match compile(&config, &nodes, &tuning) {
                    Ok(net) => {
                        self.network = Some(net);
                        self.state = State::Compiled;
                        self.last_error = None;
                        effects.push(Effect::Render);
                        effects.push(Effect::Resolve(PlayOperationOutput::Success));
                    },
                    Err(e) => {
                        self.last_error = Some(e);
                        effects.push(Effect::Resolve(PlayOperationOutput::Failure));
                    },
                }
                effects
            },
            PlayOperation::Input(input) => {
                match self.state {
                    State::Capturing => {
                        let mut wins: Vec<Vec<Sample>>;
                        if input.len() > 0 {
                            wins = self.window.push_block(&input[0]);
                        } else {
                            let empty_block: Vec<Sample> = Vec::new();
                            proof {
                                assert(old(self).window.buf@ + empty_block@ =~= old(
                                    self,
                                ).window.buf@ + spec_first_channel(input@));
                            }
                            wins = self.window.push_block(&empty_block);
                        }
                        let ghost data = old(self).window.buf@ + spec_first_channel(input@);
                        let ghost all = wins@;
                        let mut effects: Vec<Effect> = Vec::new();
                        while wins.len() > 0
                            invariant
                                effects@.len() + wins@.len() == all.len(),
                                forall|k: int|
                                    0 <= k < wins@.len() ==> #[trigger] wins@[k] == all[effects@.len()
                                        + k],
                                forall|k: int|
                                    0 <= k < effects@.len() ==> ((#[trigger] effects@[k]) matches
                                        Effect::Analyze(w)
                                        && w@ == spec_windows(data)[k]),
                                all.len() == spec_windows(data).len(),
                                forall|k: int|
                                    0 <= k < all.len() ==> (#[trigger] all[k])@ == spec_windows(
                                        data,
                                    )[k],
                            decreases wins@.len(),
                        {
                            let w = wins.remove(0);
                            effects.push(Effect::Analyze(w));
                        }
                        effects
                    },
                    State::Uninitialized => Vec::new(),
                    _ => {
                        let frame_size = if input.len() > 0 {
                            input[0].len()
                        } else {
                            0
                        };
                        self.frame_size = frame_size;
                        let mut effects: Vec<Effect> = Vec::new();
                        effects.push(Effect::RunBlock { frame_size });
                        effects
                    },
                }
            },
            PlayOperation::Capture(capturing) => {
                let mut effects: Vec<Effect> = Vec::new();
                if matches!(self.state, State::Uninitialized) {
                    effects.push(Effect::Resolve(PlayOperationOutput::Failure));
                } else {
                    self.state = if capturing {
                        State::Capturing
                    } else {
                        State::Compiled
                    };
                    effects.push(Effect::Resolve(PlayOperationOutput::Success));
                }
                effects
            },
            PlayOperation::SendSnoops => {
                let mut effects: Vec<Effect> = Vec::new();
                match &self.network {
                    None => {},
                    Some(net) => {
                        let total = net.taps.len();
                        let mut chans: Vec<Vec<Sample>> = Vec::new();
                        let mut b: usize = 0;
                        while b < net.channel_count
                            invariant
                                net.wf(),
                                total == net.taps@.len(),
                                b <= net.channel_count,
                                chans@.len() == b,
                                forall|j: int|
                                    0 <= j < b ==> (#[trigger] chans@[j])@ == net.taps@[net.node_count
                                        + j]@,
                            decreases net.channel_count - b,
                        {
                            chans.push(net.taps[net.node_count + b].snapshot());
                            b += 1;
                        }
                        let mut ds: Vec<(usize, Vec<Sample>)> = Vec::new();
                        let mut i: usize = 0;
                        while i < net.node_count
                            invariant
                                net.wf(),
                                i <= net.node_count,
                                ds@.len() == i,
                                forall|j: int|
                                    0 <= j < i ==> (#[trigger] ds@[j]).0 == net.units@[j].f_n
                                        && ds@[j].1@ == net.taps@[j]@,
                            decreases net.node_count - i,
                        {
                            ds.push((net.units[i].f_n, net.taps[i].snapshot()));
                            i += 1;
                        }
                        effects.push(Effect::CaptureData(chans));
                        effects.push(Effect::CaptureNodesData(ds));
                    },
                }
                effects
            },
            _ => {
                let mut effects: Vec<Effect> = Vec::new();
                effects.push(Effect::Resolve(PlayOperationOutput::Success));
                effects
            },
        }
    }

    /// Takes back the result of a deferred effect.
    ///
    /// A rendered block is committed only when it matches the expected shape
    /// — `channel_count` buffers of the scheduled frame size, plus one block
    /// per node for the taps; anything else is a caller contract violation
    /// answered with `FrameSizeMismatch` and no state change.  A spectrum is
    /// band-restricted and kept only while still capturing; a stale one
    /// arriving after capture stopped is dropped.
    pub fn handle_response(&mut self, resp: Response) -> (r: Result<Vec<Effect>, RenderError>)
        requires
            old(self).wf(),
        ensures
            final(self).wf(),
            match resp {
                Response::RenderedBlock { outputs, node_outputs } => match old(self).state {
                    State::Compiled | State::Rendering => (old(self).network matches Some(net)
                        ==> {
                        let ok = outputs@.len() == net.channel_count && (forall|ch: int|
                            0 <= ch < outputs@.len() ==> (#[trigger] outputs@[ch])@.len() == old(
                                self,
                            ).frame_size) && node_outputs@.len() == net.node_count;
                        &&& (!ok ==> (r matches Err(e) && e == RenderError::FrameSizeMismatch)
                            && *final(self) == *old(self))
                        &&& (ok ==> {
                            &&& (r matches Ok(effects) && effects@.len() == 1 && effects@[0]
                                is Render)
                            &&& final(self).state is Rendering
                            &&& final(self).audio_data == outputs
                            &&& (final(self).network matches Some(n2) && {
                                &&& n2.node_count == net.node_count
                                &&& n2.channel_count == net.channel_count
                                &&& n2.sample_rate_hz == net.sample_rate_hz
                                &&& n2.units == net.units
                                &&& n2.buses == net.buses
                                &&& n2.cells == net.cells
                                &&& n2.taps@.len() == net.taps@.len()
                                &&& (forall|i: int|
                                    0 <= i < net.node_count ==> (#[trigger] n2.taps@[i])@
                                        == spec_tap_push_all(
                                        net.taps@[i]@,
                                        node_outputs@[i]@,
                                    ))
                                &&& (forall|b: int|
                                    0 <= b < net.channel_count ==> (#[trigger] n2.taps@[net.node_count
                                        + b])@ == spec_tap_push_all(
                                        net.taps@[net.node_count + b]@,
                                        outputs@[b]@,
                                    ))
                            })
                            &&& final(self).window == old(self).window
                            &&& final(self).frame_size == old(self).frame_size
                            &&& final(self).spectrum == old(self).spectrum
                            &&& final(self).last_error == old(self).last_error
                        })
                    }),
                    _ => (r matches Ok(effects) && effects@.len() == 0) && *final(self) == *old(
                        self,
                    ),
                },
                Response::Spectrum(pairs) => match old(self).state {
                    State::Capturing => {
                        &&& (r matches Ok(effects) && effects@.len() == 1 && (effects@[0] matches
                            Effect::CaptureFft(f)
                            && f.pairs@ == spec_restrict(pairs@)))
                        &&& (final(self).spectrum matches Some(g) && g.pairs@ == spec_restrict(
                            pairs@,
                        ))
                        &&& final(self).state == old(self).state
                        &&& final(self).network == old(self).network
                        &&& final(self).window == old(self).window
                        &&& final(self).frame_size == old(self).frame_size
                        &&& final(self).audio_data == old(self).audio_data
                        &&& final(self).last_error == old(self).last_error
                    },
                    _ => (r matches Ok(effects) && effects@.len() == 0) && *final(self) == *old(
                        self,
                    ),
                },
            },
    {
        match resp {
            Response::RenderedBlock { outputs, node_outputs } => {
                match self.state {
                    State::Compiled | State::Rendering => {
                        let expected = self.frame_size;
                        let (nc, cc): (usize, usize) = match &self.network {
                            Some(net) => (net.node_count, net.channel_count),
                            None => {
                                proof {
                                    assert(false);
                                }
                                (0, 0)
                            },
                        };
                        let mut ok = outputs.len() == cc && node_outputs.len() == nc;
                        let mut ch: usize = 0;
                        while ch < outputs.len()
                            invariant
                                ch <= outputs@.len(),
                                expected == old(self).frame_size,
                                ok == ({
                                    &&& outputs@.len() == cc
                                    &&& node_outputs@.len() == nc
                                    &&& forall|j: int|
                                        0 <= j < ch ==> (#[trigger] outputs@[j])@.len()
                                            == expected
                                }),
                            decreases outputs@.len() - ch,
                        {
                            if outputs[ch].len() != expected {
                                ok = false;
                            }
                            ch += 1;
                        }
                        if !ok {
                            return Err(RenderError::FrameSizeMismatch);
                        }
                        match &mut self.network {
                            Some(net) => {
                                let ghost net0 = *net;
                                let total = net.taps.len();
                                let mut i: usize = 0;
                                while i < nc
                                    invariant
                                        total == net.taps@.len(),
                                        i <= nc,
                                        nc == net0.node_count,
                                        node_outputs@.len() == nc,
                                        *net == (Network { taps: net.taps, ..net0 }),
                                        net0.wf(),
                                        net.taps@.len() == net0.taps@.len(),
                                        forall|t: int|
                                            0 <= t < net.taps@.len() ==> (
                                            #[trigger] net.taps@[t]).wf(),
                                        forall|j: int|
                                            0 <= j < i ==> (#[trigger] net.taps@[j])@
                                                == spec_tap_push_all(
                                                net0.taps@[j]@,
                                                node_outputs@[j]@,
                                            ),
                                        forall|j: int|
                                            i <= j < net0.taps@.len() ==> #[trigger] net.taps@[j]
                                                == net0.taps@[j],
                                    decreases nc - i,
                                {
                                    let ghost pre = net.taps@;
                                    let mut t = net.taps.remove(i);
                                    t.push_block(&node_outputs[i]);
                                    net.taps.insert(i, t);
                                    proof {
                                        assert(net.taps@ =~= pre.update(i as int, t));
                                    }
                                    i += 1;
                                }
                                let mut b: usize = 0;
                                while b < cc
                                    invariant
                                        total == net.taps@.len(),
                                        b <= cc,
                                        nc == net0.node_count,
                                        cc == net0.channel_count,
                                        outputs@.len() == cc,
                                        *net == (Network { taps: net.taps, ..net0 }),
                                        net0.wf(),
                                        net.taps@.len() == net0.taps@.len(),
                                        forall|t: int|
                                            0 <= t < net.taps@.len() ==> (
                                            #[trigger] net.taps@[t]).wf(),
                                        forall|j: int|
                                            0 <= j < nc ==> (#[trigger] net.taps@[j])@
                                                == spec_tap_push_all(
                                                net0.taps@[j]@,
                                                node_outputs@[j]@,
                                            ),
                                        forall|j: int|
                                            0 <= j < b ==> (#[trigger] net.taps@[nc + j])@
                                                == spec_tap_push_all(
                                                net0.taps@[nc + j]@,
                                                outputs@[j]@,
                                            ),
                                        forall|j: int|
                                            nc + b <= j < net0.taps@.len() ==> #[trigger] net.taps@[j]
                                                == net0.taps@[j],
                                    decreases cc - b,
                                {
                                    let ghost pre = net.taps@;
                                    let mut t = net.taps.remove(nc + b);
                                    t.push_block(&outputs[b]);
                                    net.taps.insert(nc + b, t);
                                    proof {
                                        assert(net.taps@ =~= pre.update(nc + b, t));
                                    }
                                    b += 1;
                                }
                            },
                            None => {
                                proof {
                                    assert(false);
                                }
                            },
                        }
                        self.audio_data = outputs;
                        self.state = State::Rendering;
                        let mut effects: Vec<Effect> = Vec::new();
                        effects.push(Effect::Render);
                        Ok(effects)
                    },
                    _ => Ok(Vec::new()),
                }
            },
            Response::Spectrum(pairs) => {
                match self.state {
                    State::Capturing => {
                        let frame = restrict_frame(&pairs);
                        let kept = restrict_frame(&pairs);
                        self.spectrum = Some(kept);
                        let mut effects: Vec<Effect> = Vec::new();
                        effects.push(Effect::CaptureFft(frame));
                        Ok(effects)
                    },
                    _ => Ok(Vec::new()),
                }
            },
        }
    }

    /// The engine's presentable state: a copy of the most recent output
    /// block, one buffer per channel.
    pub fn view(&self) -> (vm: ViewModel)
        ensures
            vm.0@.len() == self.audio_data@.len(),
            forall|ch: int|
                0 <= ch < vm.0@.len() ==> (#[trigger] vm.0@[ch])@ == self.audio_data@[ch]@,
    {
        let mut data: Vec<Vec<Sample>> = Vec::new();
        let n = self.audio_data.len();
        let mut ch: usize = 0;
        while ch < n
            invariant
                ch <= n,
                n == self.audio_data@.len(),
                data@.len() == ch,
                forall|j: int|
                    0 <= j < ch ==> (#[trigger] data@[j])@ == self.audio_data@[j]@,
            decreases n - ch,
        {
            let src = &self.audio_data[ch];
            let m = src.len();
            let mut buf: Vec<Sample> = Vec::new();
            let mut k: usize = 0;
            while k < m
                invariant
                    k <= m,
                    m == src@.len(),
                    buf@ == src@.take(k as int),
                decreases m - k,
            {
                buf.push(src[k]);
                proof {
                    assert(src@.take(k + 1) =~= src@.take(k as int).push(src@[k as int]));
                }
                k += 1;
            }
            proof {
                assert(src@.take(m as int) =~= src@);
            }
            data.push(buf);
            ch += 1;
        }
        ViewModel(data)
    }
}

} // verus!
