use gmticore::{ClutterStage, DopplerStage, RangeStage, StageConfig, StageError};
use num_complex::Complex32;
use rustfft::FftPlanner;

fn magnitude_spectrum(frame: Vec<f32>) -> Vec<f32> {
    let mut planner = FftPlanner::<f32>::new();
    let fft = planner.plan_fft_forward(frame.len());
    let mut buffer: Vec<Complex32> = frame.iter().map(|&v| Complex32::new(v, 0.0)).collect();
    fft.process(&mut buffer);
    buffer.iter().map(|c| c.norm()).collect()
}

fn rms(samples: &[f32]) -> f32 {
    if samples.is_empty() {
        return 0.0;
    }
    let sum_sq: f32 = samples.iter().map(|&v| v * v).sum();
    (sum_sq / samples.len() as f32).sqrt()
}

#[test]
fn range_stage_computes_power_profile() {
    let mut stage = RangeStage::new(4, 0.0f32);
    let config = StageConfig { taps: 1, range_bins: 4, doppler_bins: 2 };
    stage.initialize(&config).unwrap();
    let samples = vec![1.0f32, 2.0, 3.0, 4.0];
    let output = stage.execute(&samples, |v: f32| v * v).unwrap();
    assert_eq!(output.power_profile, vec![1.0, 4.0, 9.0, 16.0]);
    stage.cleanup();
}

#[test]
fn range_stage_keeps_only_the_first_pulse() {
    let mut stage = RangeStage::new(2, 0i64);
    let config = StageConfig { taps: 2, range_bins: 3, doppler_bins: 4 };
    stage.initialize(&config).unwrap();
    let samples: Vec<i64> = vec![1, -2, 3, 4, 5, 6, 7];
    let output = stage.execute(&samples, |v: i64| v * v).unwrap();
    assert_eq!(output.samples, vec![1, -2, 3]);
    assert_eq!(output.power_profile, vec![1, 4, 9]);
}

#[test]
fn range_stage_rejects_short_burst() {
    let mut stage = RangeStage::new(2, 0.0f32);
    let config = StageConfig { taps: 2, range_bins: 4, doppler_bins: 4 };
    stage.initialize(&config).unwrap();
    let samples = vec![1.0f32; 7];
    let result = stage.execute(&samples, |v: f32| v * v);
    assert!(matches!(result, Err(StageError::InvalidInput(_))));
}

#[test]
fn range_stage_requires_initialize() {
    let mut stage = RangeStage::new(2, 0.0f32);
    let samples = vec![1.0f32; 8];
    assert!(matches!(stage.execute(&samples, |v: f32| v * v), Err(StageError::Internal(_))));
    let config = StageConfig { taps: 1, range_bins: 4, doppler_bins: 4 };
    stage.initialize(&config).unwrap();
    assert!(stage.execute(&samples, |v: f32| v * v).is_ok());
    stage.cleanup();
    assert!(matches!(stage.execute(&samples, |v: f32| v * v), Err(StageError::Internal(_))));
}

#[test]
fn range_stage_with_empty_pool_is_exhausted() {
    let mut stage = RangeStage::new(0, 0.0f32);
    let config = StageConfig { taps: 1, range_bins: 2, doppler_bins: 4 };
    stage.initialize(&config).unwrap();
    let samples = vec![1.0f32, 2.0];
    let result = stage.execute(&samples, |v: f32| v * v);
    assert!(matches!(result, Err(StageError::BufferExhaustion(_))));
}

#[test]
fn range_stage_pool_bounds_its_executions() {
    let mut stage = RangeStage::new(1, 0.0f32);
    let config = StageConfig { taps: 1, range_bins: 2, doppler_bins: 4 };
    stage.initialize(&config).unwrap();
    let samples = vec![1.0f32, 2.0];
    assert!(stage.execute(&samples, |v: f32| v * v).is_ok());
    let result = stage.execute(&samples, |v: f32| v * v);
    assert!(matches!(result, Err(StageError::BufferExhaustion(_))));
}

#[test]
fn doppler_stage_returns_magnitude_sequence() {
    let mut stage = DopplerStage::new(8, 0.0f32);
    let config = StageConfig { taps: 1, range_bins: 4, doppler_bins: 8 };
    stage.initialize(&config).unwrap();
    let samples = vec![1.0f32, 0.0, 0.0, 0.0];
    let output = stage.execute(&samples, magnitude_spectrum).unwrap();
    assert_eq!(output.len(), 8);
    // An impulse has a flat magnitude spectrum.
    assert!(output.iter().all(|&m| (m - 1.0).abs() < 1e-6));
    stage.cleanup();
}

#[test]
fn doppler_stage_pads_and_truncates_to_bins() {
    let mut stage = DopplerStage::new(2, 0i32);
    let config = StageConfig { taps: 1, range_bins: 4, doppler_bins: 3 };
    stage.initialize(&config).unwrap();
    let short = vec![5i32];
    assert_eq!(stage.execute(&short, |x: Vec<i32>| x).unwrap(), vec![5, 0, 0]);
    let long = vec![1i32, 2, 3, 4, 5];
    assert_eq!(stage.execute(&long, |x: Vec<i32>| x).unwrap(), vec![1, 2, 3]);
}

#[test]
fn doppler_stage_rejects_empty_input() {
    let mut stage = DopplerStage::new(1, 0.0f32);
    let config = StageConfig { taps: 1, range_bins: 4, doppler_bins: 4 };
    stage.initialize(&config).unwrap();
    let empty: Vec<f32> = Vec::new();
    assert!(matches!(stage.execute(&empty, magnitude_spectrum), Err(StageError::InvalidInput(_))));
}

#[test]
fn doppler_stage_requires_initialize() {
    let mut stage = DopplerStage::new(1, 0.0f32);
    let samples = vec![1.0f32, 2.0];
    assert!(matches!(stage.execute(&samples, magnitude_spectrum), Err(StageError::Internal(_))));
}

#[test]
fn clutter_stage_detects_threshold_exceeding_values() {
    let mut stage = ClutterStage::new(4, 0.0f32);
    let config = StageConfig { taps: 1, range_bins: 4, doppler_bins: 4 };
    stage.initialize(&config).unwrap();
    let samples = vec![0.1f32, 20.0, 0.2, 20.0];
    let output = stage
        .execute(&samples, |b: &Vec<f32>| rms(b) * 1.2, |v: f32, t: f32| v > t)
        .unwrap();
    assert!(output.hits.len() >= 2);
    assert!((output.threshold - rms(&samples) * 1.2).abs() < 1e-6);
    assert_eq!(output.hits, vec![1, 3]);
    assert_eq!(output.samples, samples);
    stage.cleanup();
}

#[test]
fn clutter_stage_checks_lifecycle_before_input() {
    let mut stage = ClutterStage::new(4, 0.0f32);
    let empty: Vec<f32> = Vec::new();
    assert!(matches!(stage.execute(&empty, |_b: &Vec<f32>| 1.0f32, |v: f32, t: f32| v > t), Err(StageError::Internal(_))));
    let config = StageConfig { taps: 1, range_bins: 4, doppler_bins: 4 };
    stage.initialize(&config).unwrap();
    assert!(matches!(stage.execute(&empty, |_b: &Vec<f32>| 1.0f32, |v: f32, t: f32| v > t), Err(StageError::InvalidInput(_))));
}

#[test]
fn clutter_hits_are_increasing_and_in_range() {
    let mut stage = ClutterStage::new(1, 0u32);
    let config = StageConfig { taps: 1, range_bins: 4, doppler_bins: 4 };
    stage.initialize(&config).unwrap();
    let samples: Vec<u32> = vec![9, 1, 9, 9, 0, 7];
    let output = stage.execute(&samples, |_b: &Vec<u32>| 5u32, |v: u32, t: u32| v > t).unwrap();
    assert_eq!(output.threshold, 5);
    assert_eq!(output.hits, vec![0, 2, 3, 5]);
    assert!(output.hits.windows(2).all(|w| w[0] < w[1]));
}
