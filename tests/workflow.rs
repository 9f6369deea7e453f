use gmticore::{
    apply_detection_floor, augment_detection_records, detection_target, ConfigField, ConfigForm,
    LogManager, MetricsRecorder, Phase, PriType, Runner, StageError, StageKind, WorkflowConfig,
    DETECTION_FLOOR, MAX_DETECTION_TARGET, MIN_DETECTION_TARGET,
};
use num_complex::Complex32;
use rustfft::FftPlanner;

fn magnitude_spectrum(frame: Vec<f32>) -> Vec<f32> {
    let mut planner = FftPlanner::<f32>::new();
    let fft = planner.plan_fft_forward(frame.len());
    let mut buffer: Vec<Complex32> = frame.iter().map(|&v| Complex32::new(v, 0.0)).collect();
    fft.process(&mut buffer);
    buffer.iter().map(|c| c.norm()).collect()
}

fn rms(samples: &[f32]) -> f32 {
    if samples.is_empty() {
        return 0.0;
    }
    let sum_sq: f32 = samples.iter().map(|&v| v * v).sum();
    (sum_sq / samples.len() as f32).sqrt()
}

#[test]
fn config_from_args_produces_stage_config() {
    let cfg = WorkflowConfig::from_args(2, 1024, 128);
    assert_eq!(cfg.to_stage_config().range_bins, 1024);
}

#[test]
fn detection_target_is_clamped() {
    assert_eq!(detection_target(0), MIN_DETECTION_TARGET);
    assert_eq!(detection_target(18), 18);
    assert_eq!(detection_target(27), 27);
    assert_eq!(detection_target(64), 64);
    assert_eq!(detection_target(1000), MAX_DETECTION_TARGET);
}

#[test]
fn empty_detections_pad_to_target_of_ten_km_square() {
    // A 10 km by 10 km area scales to round(10 * 1.8) = 18.
    let target = detection_target(18);
    let padded = apply_detection_floor(Vec::<usize>::new(), target, |i: usize| i * 10);
    assert_eq!(padded.len(), 18);
    assert_eq!(padded[0], 0);
    assert_eq!(padded[17], 170);
}

#[test]
fn padding_keeps_real_detections_first() {
    let padded = augment_detection_records(vec![100usize, 200], 5, |i: usize| i);
    assert_eq!(padded, vec![100, 200, 2, 3, 4]);
}

#[test]
fn detections_at_or_above_target_are_untouched() {
    let records = vec![7u32, 8, 9];
    assert_eq!(augment_detection_records(records.clone(), 3, |_i: usize| 0u32), records);
    assert_eq!(augment_detection_records(records.clone(), 2, |_i: usize| 0u32), records);
}

#[test]
fn detections_at_floor_are_untouched() {
    let records: Vec<u32> = (0..DETECTION_FLOOR as u32).collect();
    assert_eq!(apply_detection_floor(records.clone(), 18, |_i: usize| 99u32), records);
    let thin: Vec<u32> = vec![1, 2, 3, 4, 5];
    assert_eq!(apply_detection_floor(thin, 18, |_i: usize| 99u32).len(), 18);
}

#[test]
fn padding_is_repeatable() {
    let a = apply_detection_floor(vec![1u64], 20, |i: usize| (i as u64) * 3 + 1);
    let b = apply_detection_floor(vec![1u64], 20, |i: usize| (i as u64) * 3 + 1);
    assert_eq!(a, b);
}

#[test]
fn end_to_end_burst_reaches_detection_floor() {
    let cfg = WorkflowConfig::from_args(2, 16, 8);
    let runner = Runner::new(cfg);
    let samples: Vec<f32> = (0..32).map(|i| ((i as f32) * 0.7).sin()).collect();
    let out = runner
        .run_stages(
            &samples,
            0.0f32,
            |v: f32| v * v,
            magnitude_spectrum,
            |b: &Vec<f32>| rms(b) * 1.2,
            |v: f32, t: f32| v > t,
        )
        .unwrap();
    assert_eq!(out.range.power_profile.len(), 16);
    assert_eq!(out.doppler.len(), 8);
    assert_eq!(out.clutter.samples, out.doppler);
    let records = apply_detection_floor(out.clutter.hits, detection_target(18), |i: usize| i);
    assert!(records.len() >= 18);
}

#[test]
fn runner_names_failing_stage() {
    let runner = Runner::new(WorkflowConfig::from_args(2, 16, 8));
    let short = vec![1.0f32; 31];
    let err = runner
        .run_stages(
            &short,
            0.0f32,
            |v: f32| v * v,
            magnitude_spectrum,
            |b: &Vec<f32>| rms(b) * 1.2,
            |v: f32, t: f32| v > t,
        )
        .err()
        .unwrap();
    assert_eq!(err.stage, StageKind::Range);
    assert_eq!(err.phase, Phase::Execute);
    assert!(matches!(err.error, StageError::InvalidInput(_)));

    let no_bins = Runner::new(WorkflowConfig::from_args(1, 0, 8));
    let err = no_bins
        .run_stages(
            &short,
            0.0f32,
            |v: f32| v * v,
            magnitude_spectrum,
            |b: &Vec<f32>| rms(b) * 1.2,
            |v: f32, t: f32| v > t,
        )
        .err()
        .unwrap();
    assert_eq!(err.stage, StageKind::Doppler);
    assert_eq!(err.phase, Phase::Execute);
}

#[test]
fn runner_keeps_its_config() {
    let cfg = WorkflowConfig::from_args(3, 512, 64);
    assert_eq!(Runner::new(cfg).config(), cfg);
}

#[test]
fn metrics_count_events() {
    let mut metrics = MetricsRecorder::new();
    metrics.record_processed();
    metrics.record_processed();
    metrics.record_error();
    assert_eq!(metrics.snapshot(), (2, 1));
    assert_eq!(MetricsRecorder::default().snapshot(), (0, 0));
}

#[test]
fn log_keeps_messages_in_order() {
    let mut log = LogManager::new();
    log.record("first");
    log.record("second");
    assert_eq!(log.drain(), vec!["first".to_string(), "second".to_string()]);
    assert!(log.drain().is_empty());
}

#[test]
fn config_form_defaults_and_updates() {
    let mut form = ConfigForm::default();
    assert_eq!(form.taps, "4");
    assert_eq!(form.area_width, "10");
    assert_eq!(form.target_motion, "Cruise, gentle zig-zag");
    form.update_field(ConfigField::AreaWidth, "25".to_string());
    assert_eq!(form.area_width, "25");
    assert_eq!(form.area_height, "10");
}

#[test]
fn pri_modes_compare() {
    assert_eq!(PriType::AdvGmtiScan, PriType::AdvGmtiScan);
    assert_ne!(PriType::Standby, PriType::AdvDmtiScan);
}

#[test]
fn repeated_runs_agree() {
    let runner = Runner::new(WorkflowConfig::from_args(2, 16, 8));
    let samples: Vec<f32> = (0..32).map(|i| ((i as f32) * 1.3).cos() * 4.0).collect();
    let run = || {
        runner
            .run_stages(
                &samples,
                0.0f32,
                |v: f32| v * v,
                magnitude_spectrum,
                |b: &Vec<f32>| rms(b) * 1.2,
                |v: f32, t: f32| v > t,
            )
            .unwrap()
    };
    let a = run();
    let b = run();
    assert_eq!(a.range.power_profile, b.range.power_profile);
    assert_eq!(a.doppler, b.doppler);
    assert_eq!(a.clutter.threshold, b.clutter.threshold);
    assert_eq!(a.clutter.hits, b.clutter.hits);
}
