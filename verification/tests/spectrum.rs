use aucore::{
    restrict_frame, Effect, Engine, EngineConfig, Node, Pan, PlayOperation, Response, Tuner,
    TuningValue,
};
use spectrum_analyzer::scaling::divide_by_N_sqrt;
use spectrum_analyzer::windows::hann_window;
use spectrum_analyzer::{samples_fft_to_spectrum, FrequencyLimit};

const SAMPLE_RATE: u32 = 44100;
const WINDOW: usize = 4096;

/// The windowed transform the shell runs for one capture window, reported in
/// the engine's integer units (millihertz, millionths).
fn analyze(window: &[f32]) -> Vec<(u32, u64)> {
    let hw = hann_window(window);
    let spectrum = samples_fft_to_spectrum(
        &hw,
        SAMPLE_RATE,
        FrequencyLimit::All,
        Some(&divide_by_N_sqrt),
    )
    .expect("transform");
    spectrum
        .data()
        .iter()
        .map(|(f, v)| {
            (
                (f.val() as f64 * 1000.0).round() as u32,
                (v.val() as f64 * 1_000_000.0).round() as u64,
            )
        })
        .collect()
}

fn sine(freq_hz: f32, len: usize) -> Vec<f32> {
    (0..len)
        .map(|i| (2.0 * std::f32::consts::PI * freq_hz * i as f32 / SAMPLE_RATE as f32).sin())
        .collect()
}

#[test]
fn pure_tone_peak_lands_within_one_bin() {
    let bin_width_mhz = (SAMPLE_RATE as f64 * 1000.0 / WINDOW as f64).ceil() as i64;
    for freq in [220.0f32, 1000.0, 2500.0] {
        let pairs = analyze(&sine(freq, WINDOW));
        let frame = restrict_frame(&pairs);
        let peak = frame.peak().expect("non-empty frame");
        let peak_mhz = frame.pairs[peak].0 as i64;
        let tone_mhz = (freq * 1000.0) as i64;
        assert!(
            (peak_mhz - tone_mhz).abs() <= bin_width_mhz,
            "tone {freq} Hz peaked at {peak_mhz} mHz"
        );
    }
}

#[test]
fn restriction_keeps_only_the_playable_band() {
    let pairs: Vec<(u32, u64)> = vec![
        (10, 900),         // below 0.06 Hz
        (60, 1),           // exactly the lower bound
        (1_000_000, 5),    // 1 kHz
        (6_000_000, 2),    // exactly the upper bound
        (6_000_001, 999),  // above 6 kHz
    ];
    let frame = restrict_frame(&pairs);
    assert_eq!(frame.pairs, vec![(60, 1), (1_000_000, 5), (6_000_000, 2)]);
}

#[test]
fn peak_prefers_the_earliest_of_equals() {
    let frame = restrict_frame(&vec![(100, 5), (200, 9), (300, 9), (400, 1)]);
    assert_eq!(frame.peak(), Some(1));
}

#[test]
fn empty_frame_has_no_peak() {
    let frame = restrict_frame(&Vec::new());
    assert_eq!(frame.peak(), None);
}

#[test]
fn tuning_derivation_normalizes_against_the_loudest_peak() {
    let pairs: Vec<(u32, u64)> = vec![
        (150_000, 10),
        (300_000, 500_000),
        (450_000, 100_000),
        (650_000, 20),
    ];
    let frame = restrict_frame(&pairs);
    let nodes = vec![
        Node { f_n: 1, base_mhz: 100_000, max_mhz: 350_000, pan: Pan::Center },
        Node { f_n: 2, base_mhz: 400_000, max_mhz: 500_000, pan: Pan::Center },
        Node { f_n: 3, base_mhz: 600_000, max_mhz: 700_000, pan: Pan::Center },
    ];
    let tuner = Tuner::new(50);
    let tuning = tuner.derive_tuning(&frame, &nodes);
    assert_eq!(
        tuning,
        vec![
            // Strongest in-band bin; loudest overall, so full sensitivity.
            TuningValue { f_n: 1, center_mhz: 300_000, sensitivity_micro: 1_000_000 },
            // One fifth of the loudest peak.
            TuningValue { f_n: 2, center_mhz: 450_000, sensitivity_micro: 200_000 },
            // Nothing above the threshold: the base frequency, silent.
            TuningValue { f_n: 3, center_mhz: 600_000, sensitivity_micro: 0 },
        ]
    );
}

#[test]
fn capture_fills_the_window_and_reports_a_spectrum() {
    // Start capture, feed a 1 kHz sine block by block until the rolling
    // buffer fills, run the deferred analysis, and check the reported
    // spectrum peaks near 1000 Hz.
    let nodes = vec![
        Node { f_n: 1, base_mhz: 200_000, max_mhz: 5_500_000, pan: Pan::Center },
        Node { f_n: 2, base_mhz: 400_000, max_mhz: 5_500_000, pan: Pan::Center },
    ];
    let tuning: Vec<TuningValue> = nodes
        .iter()
        .map(|n| TuningValue { f_n: n.f_n, center_mhz: n.base_mhz, sensitivity_micro: 0 })
        .collect();
    let config = EngineConfig { groups: 1, sample_rate_hz: SAMPLE_RATE };
    let mut engine = Engine::new();
    engine.process_event(PlayOperation::Config(config, nodes, tuning));
    engine.process_event(PlayOperation::Capture(true));

    let tone = sine(1000.0, 10 * 512);
    let mut window: Option<Vec<u32>> = None;
    for block in tone.chunks(512) {
        let words: Vec<u32> = block.iter().map(|x| x.to_bits()).collect();
        let effects = engine.process_event(PlayOperation::Input(vec![words]));
        for e in effects {
            if let Effect::Analyze(w) = e {
                window = Some(w);
            }
        }
        if window.is_some() {
            break;
        }
    }
    let window = window.expect("the rolling buffer fills after eight 512-sample blocks");
    assert_eq!(window.len(), WINDOW);

    let samples: Vec<f32> = window.iter().map(|w| f32::from_bits(*w)).collect();
    let pairs = analyze(&samples);
    let effects = engine.handle_response(Response::Spectrum(pairs)).unwrap();
    let frame = match &effects[0] {
        Effect::CaptureFft(frame) => frame,
        other => panic!("expected a spectrum effect, got {other:?}"),
    };
    let peak = frame.peak().expect("non-empty spectrum");
    let peak_mhz = frame.pairs[peak].0 as i64;
    assert!(
        (peak_mhz - 1_000_000).abs() <= 11_000,
        "capture spectrum peaked at {peak_mhz} mHz"
    );
    assert!(engine.spectrum.is_some());
}

#[test]
fn spectrum_after_capture_stops_is_dropped() {
    let nodes = vec![
        Node { f_n: 1, base_mhz: 200_000, max_mhz: 5_500_000, pan: Pan::Center },
        Node { f_n: 2, base_mhz: 400_000, max_mhz: 5_500_000, pan: Pan::Center },
    ];
    let tuning: Vec<TuningValue> = nodes
        .iter()
        .map(|n| TuningValue { f_n: n.f_n, center_mhz: n.base_mhz, sensitivity_micro: 0 })
        .collect();
    let config = EngineConfig { groups: 1, sample_rate_hz: SAMPLE_RATE };
    let mut engine = Engine::new();
    engine.process_event(PlayOperation::Config(config, nodes, tuning));
    engine.process_event(PlayOperation::Capture(true));
    engine.process_event(PlayOperation::Capture(false));
    let effects = engine
        .handle_response(Response::Spectrum(vec![(1_000_000, 5)]))
        .unwrap();
    assert!(effects.is_empty());
    assert!(engine.spectrum.is_none());
}

#[test]
fn tuning_derivation_with_nothing_above_threshold_is_silent() {
    let frame = restrict_frame(&vec![(150_000, 10), (450_000, 20)]);
    let nodes = vec![
        Node { f_n: 1, base_mhz: 100_000, max_mhz: 350_000, pan: Pan::Center },
        Node { f_n: 2, base_mhz: 400_000, max_mhz: 500_000, pan: Pan::Center },
    ];
    let tuner = Tuner::new(1_000);
    let tuning = tuner.derive_tuning(&frame, &nodes);
    assert_eq!(
        tuning,
        vec![
            TuningValue { f_n: 1, center_mhz: 100_000, sensitivity_micro: 0 },
            TuningValue { f_n: 2, center_mhz: 400_000, sensitivity_micro: 0 },
        ]
    );
}
