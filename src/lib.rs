//! Verified core of a GMTI radar signal chain: stage configuration, the
//! bounded buffer pool shared by the stages, the stage lifecycle, and the
//! detection-floor logic of the workflow runner.
//!
//! The numeric kernels (squares, transforms, magnitudes) are supplied by the
//! caller as closures, so the library is generic over the sample type.

mod augment;
mod buffer_pool;
mod clutter;
mod config;
mod doppler;
mod error;
mod form;
mod range;
mod pri;
mod runner;
mod telemetry;

pub use augment::{
    apply_detection_floor, augment_detection_records, detection_target, is_floored, is_padding_of,
    lemma_long_lists_unchanged, lemma_padding_deterministic, lemma_thin_lists_reach_target,
    padded_len, target_for, DETECTION_FLOOR, MAX_DETECTION_TARGET, MIN_DETECTION_TARGET,
};
pub use buffer_pool::{filled, lemma_exhausted_after_bound, BufferPool};
pub use clutter::{is_index_set, lemma_scan_deterministic, ClutterOutput, ClutterStage};
pub use config::{StageConfig, WorkflowConfig};
pub use doppler::{framed, transform_len_for, DopplerStage};
pub use error::StageError;
pub use form::{ConfigField, ConfigForm};
pub use range::{RangeOutput, RangeStage};
pub use pri::PriType;
pub use runner::{at_least_one, Phase, PipelineOutput, Runner, StageFailure, StageKind};
pub use telemetry::{LogManager, MetricsRecorder};
