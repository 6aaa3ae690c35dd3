//! Core logic of a deep-sleep-cycling time-lapse camera: the append-only
//! image container format, the bounded write-behind queue that feeds it,
//! the capture session state machine, and the wake-time scheduler.

use vstd::prelude::*;

pub mod capture;
pub mod checkpoint;
pub mod config;
pub mod container;
pub mod queue;
pub mod monitoring;
pub mod schedule;
pub mod text;
pub mod touchpad;

verus! {

/// Kinds of failure the core distinguishes; the control loop decides
/// retry, abort, or terminate from the kind alone.
#[derive(Debug, PartialEq, Eq, Structural, Clone, Copy)]
pub enum CoreError {
    /// The container magic did not match in pure-read mode.
    InvalidHeader,
    /// A record could not be read back (truncated or malformed).
    InvalidRecord,
    /// A frame was rejected because the queue is at capacity; counted,
    /// non-fatal, diagnostic only.
    QueueFull,
    /// The filesystem failed at the storage edge; the session aborts and
    /// the next scheduled cycle retries.
    IoFailure,
    /// The sensor returned no frame; the current burst ends early.
    SensorUnavailable,
    /// The configuration text is incomplete or malformed.
    InvalidConfig,
}

} // verus!
