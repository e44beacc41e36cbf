use aucore::{
    Effect, Engine, EngineConfig, Network, Node, Pan, PlayOperation, PlayOperationOutput,
    RenderError, Response, State,
};
use fundsp::audiounit::{AudioUnit, BigBlockAdapter};
use fundsp::net::{Net, NodeId};
use fundsp::prelude::{U10, U12, U2, U3, U4, U5, U6, U9};
use fundsp::prelude32::{
    bandrez, bell_hz, declick_s, follow, join, mul, pass, pinkpass, pluck, resonator_hz, shared,
    sine, split, var,
};

fn mono_nodes(n: usize) -> Vec<Node> {
    (0..n)
        .map(|i| Node {
            f_n: i + 1,
            base_mhz: 200_000 + 200_000 * i as u32,
            max_mhz: 5_500_000,
            pan: Pan::Center,
        })
        .collect()
}

fn stereo_nodes(n: usize, right: usize) -> Vec<Node> {
    (0..n)
        .map(|i| Node {
            f_n: i + 1,
            base_mhz: 200_000 + 100_000 * i as u32,
            max_mhz: 5_500_000,
            pan: if i < right { Pan::Right } else { Pan::Left },
        })
        .collect()
}

fn tuning_for(nodes: &[Node]) -> Vec<aucore::TuningValue> {
    nodes
        .iter()
        .map(|n| aucore::TuningValue {
            f_n: n.f_n,
            center_mhz: n.base_mhz,
            sensitivity_micro: 0,
        })
        .collect()
}

/// Builds the executable fundsp graph the shell would run for a compiled
/// network plan.
fn build_net(plan: &Network) -> BigBlockAdapter {
    let mhz = |v: u32| v as f32 / 1000.0;
    let mut net = Net::new(1, plan.channel_count);
    net.set_sample_rate(plan.sample_rate_hz as f64);

    let input_pipe = declick_s(0.75);
    let split_id = match plan.node_count {
        2 => net.push(Box::new(input_pipe >> split::<U2>())),
        3 => net.push(Box::new(input_pipe >> split::<U3>())),
        4 => net.push(Box::new(input_pipe >> split::<U4>())),
        5 => net.push(Box::new(input_pipe >> split::<U5>())),
        6 => net.push(Box::new(input_pipe >> split::<U6>())),
        9 => net.push(Box::new(input_pipe >> split::<U9>())),
        10 => net.push(Box::new(input_pipe >> split::<U10>())),
        12 => net.push(Box::new(input_pipe >> split::<U12>())),
        n => panic!("no split stage for {n} nodes"),
    };
    net.connect_input(0, split_id, 0);

    let mut bus_ids: Vec<NodeId> = Vec::new();
    for (b, bus) in plan.buses.iter().enumerate() {
        let tail = resonator_hz(
            bus.resonator_center_mhz as f32 / 1000.0,
            mhz(bus.resonator_width_mhz).max(1.0),
        ) >> mul(10.0) >> pinkpass();
        let id = match bus.arity {
            2 => net.push(Box::new(join::<U2>() >> tail)),
            3 => net.push(Box::new(join::<U3>() >> tail)),
            5 => net.push(Box::new(join::<U5>() >> tail)),
            6 => net.push(Box::new(join::<U6>() >> tail)),
            a => panic!("no join stage of arity {a}"),
        };
        net.connect_output(id, 0, b);
        bus_ids.push(id);
    }

    for unit in &plan.units {
        let center = shared(mhz(plan.cells[unit.center_cell] as u32));
        let q = shared(plan.cells[unit.q_cell] as f32 / 1_000_000.0);
        let base = shared(mhz(plan.cells[unit.freq_cell] as u32));
        let gain = unit.gain_micro as f32 / 1_000_000.0;
        let chain = mul(gain)
            >> (pass() | var(&center) | var(&q))
            >> bandrez()
            >> pluck(mhz(unit.max_mhz), 0.75, 0.25)
            >> (var(&base) | pass())
            >> (sine() * follow(0.075))
            >> bell_hz(mhz(unit.max_mhz), 0.25, 1.75);
        let id = net.push(Box::new(chain));
        net.connect(split_id, unit.tap, id, 0);
        net.connect(id, 0, bus_ids[unit.bus], unit.port);
    }

    net.check();
    let mut be = BigBlockAdapter::new(Box::new(net));
    be.allocate();
    be
}

fn run_zero_block(be: &mut BigBlockAdapter, channels: usize, frame: usize) -> Vec<Vec<f32>> {
    let input = vec![0.0f32; frame];
    let mut outputs = vec![vec![0.0f32; frame]; channels];
    {
        let mut refs: Vec<&mut [f32]> = outputs.iter_mut().map(|o| o.as_mut_slice()).collect();
        be.process_big(frame, &[&input], &mut refs);
    }
    outputs
}

#[test]
fn every_supported_shape_renders_any_frame_size() {
    let cases = [(2, 1), (3, 1), (5, 1), (4, 2), (6, 2), (9, 2), (10, 2), (12, 2)];
    for (n, c) in cases {
        let nodes = if c == 1 {
            mono_nodes(n)
        } else if n == 9 {
            stereo_nodes(9, 3)
        } else {
            stereo_nodes(n, n / 2)
        };
        let tuning = tuning_for(&nodes);
        let config = EngineConfig { groups: c, sample_rate_hz: 44100 };
        let mut engine = Engine::new();
        engine.process_event(PlayOperation::Config(config, nodes, tuning));
        assert!(matches!(engine.state, State::Compiled));
        let mut be = build_net(engine.network.as_ref().unwrap());
        for frame in [64usize, 256] {
            let effects =
                engine.process_event(PlayOperation::Input(vec![vec![0f32.to_bits(); frame]]));
            assert!(
                matches!(effects[0], Effect::RunBlock { frame_size } if frame_size == frame)
            );
            let outputs = run_zero_block(&mut be, c, frame);
            assert_eq!(outputs.len(), c);
            for ch in &outputs {
                assert_eq!(ch.len(), frame);
                assert!(ch.iter().all(|x| x.is_finite()), "({n},{c}) produced NaN/Inf");
            }
            let word_outputs: Vec<Vec<u32>> = outputs
                .iter()
                .map(|ch| ch.iter().map(|x| x.to_bits()).collect())
                .collect();
            let node_outputs = vec![vec![0f32.to_bits(); frame]; n];
            let effects = engine
                .handle_response(Response::RenderedBlock {
                    outputs: word_outputs,
                    node_outputs,
                })
                .expect("well-shaped block");
            assert!(matches!(effects[0], Effect::Render));
            let vm = engine.view();
            assert_eq!(vm.0.len(), c);
            assert!(vm.0.iter().all(|ch| ch.len() == frame));
        }
    }
}

#[test]
fn two_node_mono_zero_input_yields_one_clean_block() {
    // node_count=2, channel_count=1, tuning (1, 200 Hz, 0) and (2, 400 Hz, 0),
    // frame_size=256, all-zero input.
    let nodes = vec![
        Node { f_n: 1, base_mhz: 200_000, max_mhz: 5_500_000, pan: Pan::Center },
        Node { f_n: 2, base_mhz: 400_000, max_mhz: 5_500_000, pan: Pan::Center },
    ];
    let tuning = vec![
        aucore::TuningValue { f_n: 1, center_mhz: 200_000, sensitivity_micro: 0 },
        aucore::TuningValue { f_n: 2, center_mhz: 400_000, sensitivity_micro: 0 },
    ];
    let config = EngineConfig { groups: 1, sample_rate_hz: 44100 };
    let mut engine = Engine::new();
    let effects = engine.process_event(PlayOperation::Config(config, nodes, tuning));
    assert_eq!(effects.len(), 2);
    assert!(matches!(effects[0], Effect::Render));
    assert!(matches!(effects[1], Effect::Resolve(PlayOperationOutput::Success)));

    let mut be = build_net(engine.network.as_ref().unwrap());
    let effects = engine.process_event(PlayOperation::Input(vec![vec![0f32.to_bits(); 256]]));
    assert!(matches!(effects[0], Effect::RunBlock { frame_size: 256 }));

    let outputs = run_zero_block(&mut be, 1, 256);
    assert_eq!(outputs.len(), 1);
    assert_eq!(outputs[0].len(), 256);
    assert!(outputs[0].iter().all(|x| x.is_finite()));

    let effects = engine
        .handle_response(Response::RenderedBlock {
            outputs: vec![outputs[0].iter().map(|x| x.to_bits()).collect()],
            node_outputs: vec![vec![0f32.to_bits(); 256]; 2],
        })
        .unwrap();
    assert!(matches!(effects[0], Effect::Render));
    let vm = engine.view();
    assert_eq!(vm.0.len(), 1);
    assert_eq!(vm.0[0].len(), 256);
    assert!(vm.0[0].iter().all(|w| f32::from_bits(*w).is_finite()));
}

#[test]
fn rejected_configuration_keeps_the_previous_network() {
    let config = EngineConfig { groups: 1, sample_rate_hz: 44100 };
    let nodes = mono_nodes(2);
    let tuning = tuning_for(&nodes);
    let mut engine = Engine::new();
    engine.process_event(PlayOperation::Config(config, nodes, tuning));
    assert!(matches!(engine.state, State::Compiled));

    // A reconfiguration to an unsupported shape fails and changes nothing.
    let bad_nodes = mono_nodes(7);
    let bad_tuning = tuning_for(&bad_nodes);
    let effects = engine.process_event(PlayOperation::Config(config, bad_nodes, bad_tuning));
    assert_eq!(effects.len(), 1);
    assert!(matches!(effects[0], Effect::Resolve(PlayOperationOutput::Failure)));
    assert!(matches!(engine.last_error, Some(aucore::CompileError::TopologyUnsupported)));
    assert!(matches!(engine.state, State::Compiled));
    assert_eq!(engine.network.as_ref().unwrap().node_count, 2);
}

#[test]
fn mismatched_output_shape_is_a_frame_size_mismatch() {
    let config = EngineConfig { groups: 1, sample_rate_hz: 44100 };
    let nodes = mono_nodes(2);
    let tuning = tuning_for(&nodes);
    let mut engine = Engine::new();
    engine.process_event(PlayOperation::Config(config, nodes, tuning));
    engine.process_event(PlayOperation::Input(vec![vec![0; 256]]));

    // Wrong buffer length.
    let r = engine.handle_response(Response::RenderedBlock {
        outputs: vec![vec![0; 128]],
        node_outputs: vec![vec![0; 256]; 2],
    });
    assert_eq!(r, Err(RenderError::FrameSizeMismatch));
    // Wrong channel count.
    let r = engine.handle_response(Response::RenderedBlock {
        outputs: vec![vec![0; 256]; 2],
        node_outputs: vec![vec![0; 256]; 2],
    });
    assert_eq!(r, Err(RenderError::FrameSizeMismatch));
    // The engine is still where it was and accepts a well-shaped block.
    let r = engine.handle_response(Response::RenderedBlock {
        outputs: vec![vec![0; 256]],
        node_outputs: vec![vec![0; 256]; 2],
    });
    assert!(r.is_ok());
    assert!(matches!(engine.state, State::Rendering));
}

#[test]
fn capture_needs_a_compiled_network() {
    let mut engine = Engine::new();
    let effects = engine.process_event(PlayOperation::Capture(true));
    assert!(matches!(effects[0], Effect::Resolve(PlayOperationOutput::Failure)));
    assert!(matches!(engine.state, State::Uninitialized));
}

#[test]
fn capture_mode_mutes_rendering_and_stop_resumes() {
    let config = EngineConfig { groups: 1, sample_rate_hz: 44100 };
    let nodes = mono_nodes(2);
    let tuning = tuning_for(&nodes);
    let mut engine = Engine::new();
    engine.process_event(PlayOperation::Config(config, nodes, tuning));

    let effects = engine.process_event(PlayOperation::Capture(true));
    assert!(matches!(effects[0], Effect::Resolve(PlayOperationOutput::Success)));
    assert!(matches!(engine.state, State::Capturing));

    // While capturing, input feeds the analyzer and no block is scheduled.
    let effects = engine.process_event(PlayOperation::Input(vec![vec![0; 256]]));
    assert!(effects.iter().all(|e| !matches!(e, Effect::RunBlock { .. })));

    let effects = engine.process_event(PlayOperation::Capture(false));
    assert!(matches!(effects[0], Effect::Resolve(PlayOperationOutput::Success)));
    assert!(matches!(engine.state, State::Compiled));

    // The next block renders again.
    let effects = engine.process_event(PlayOperation::Input(vec![vec![0; 256]]));
    assert!(matches!(effects[0], Effect::RunBlock { frame_size: 256 }));
}

#[test]
fn snoops_report_the_latest_tap_contents() {
    let config = EngineConfig { groups: 1, sample_rate_hz: 44100 };
    let nodes = mono_nodes(2);
    let tuning = tuning_for(&nodes);
    let mut engine = Engine::new();
    engine.process_event(PlayOperation::Config(config, nodes, tuning));
    engine.process_event(PlayOperation::Input(vec![vec![0; 100]]));

    let out_block: Vec<u32> = (0..100).collect();
    let node_a: Vec<u32> = (1000..1100).collect();
    let node_b: Vec<u32> = (2000..2100).collect();
    engine
        .handle_response(Response::RenderedBlock {
            outputs: vec![out_block.clone()],
            node_outputs: vec![node_a.clone(), node_b.clone()],
        })
        .unwrap();

    let effects = engine.process_event(PlayOperation::SendSnoops);
    assert_eq!(effects.len(), 2);
    match &effects[0] {
        Effect::CaptureData(chans) => {
            assert_eq!(chans.len(), 1);
            // The tap holds the last 64 of the 100 samples, oldest first.
            assert_eq!(chans[0], (36..100).collect::<Vec<u32>>());
        },
        other => panic!("expected channel data, got {other:?}"),
    }
    match &effects[1] {
        Effect::CaptureNodesData(ds) => {
            assert_eq!(ds.len(), 2);
            assert_eq!(ds[0].0, 1);
            assert_eq!(ds[0].1, (1036..1100).collect::<Vec<u32>>());
            assert_eq!(ds[1].0, 2);
            assert_eq!(ds[1].1, (2036..2100).collect::<Vec<u32>>());
        },
        other => panic!("expected node data, got {other:?}"),
    }
}

#[test]
fn snoops_without_a_network_report_nothing() {
    let mut engine = Engine::new();
    let effects = engine.process_event(PlayOperation::SendSnoops);
    assert!(effects.is_empty());
}

#[test]
fn lifecycle_operations_resolve_as_handled() {
    let mut engine = Engine::new();
    for op in [
        PlayOperation::Permissions,
        PlayOperation::InstallAU,
        PlayOperation::Suspend,
        PlayOperation::Resume,
        PlayOperation::QueryInputDevices,
        PlayOperation::QueryOutputDevices,
    ] {
        let effects = engine.process_event(op);
        assert_eq!(effects.len(), 1);
        assert!(matches!(effects[0], Effect::Resolve(PlayOperationOutput::Success)));
    }
}

#[test]
fn input_before_configuration_is_ignored() {
    let mut engine = Engine::new();
    let effects = engine.process_event(PlayOperation::Input(vec![vec![0; 256]]));
    assert!(effects.is_empty());
    assert!(engine.view().0.is_empty());
}

#[test]
fn capture_window_carries_samples_across_blocks() {
    let config = EngineConfig { groups: 1, sample_rate_hz: 44100 };
    let nodes = mono_nodes(2);
    let tuning = tuning_for(&nodes);
    let mut engine = Engine::new();
    engine.process_event(PlayOperation::Config(config, nodes, tuning));
    engine.process_event(PlayOperation::Capture(true));

    // 3000 samples, then 2000: the window fills mid-second-block and the
    // emitted 4096 samples are the first 4096 fed, in order.
    let first: Vec<u32> = (0..3000).collect();
    let effects = engine.process_event(PlayOperation::Input(vec![first]));
    assert!(effects.is_empty());
    let second: Vec<u32> = (3000..5000).collect();
    let effects = engine.process_event(PlayOperation::Input(vec![second]));
    assert_eq!(effects.len(), 1);
    match &effects[0] {
        Effect::Analyze(w) => assert_eq!(*w, (0..4096).collect::<Vec<u32>>()),
        other => panic!("expected an analysis window, got {other:?}"),
    }
}
