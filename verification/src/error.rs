//! Failure taxonomy of the pipeline. Every failure carries the identifier of
//! the offending entity (path, input index, axis index), so that nothing is
//! silently swallowed or defaulted.

use vstd::prelude::*;

verus! {

/// A reason for which a configuration is rejected before any model is loaded.
#[derive(Debug, Clone)]
pub enum ConfigIssue {
    /// A shape range whose triple does not satisfy `1 <= min <= opt <= max`.
    InvalidShapeRange { min: i64, opt: i64, max: i64 },
    /// The axis map declares no axis at all for the model's inputs.
    EmptyAxisMap,
    /// The axis map leaves the named axis of the named input unbound.
    MissingAxis { input: usize, axis: usize },
}

/// Every failure the pipeline can report to its caller.
#[derive(Debug, Clone)]
pub enum Error {
    /// The configuration itself is invalid (bad range, missing axis).
    ConfigurationError(ConfigIssue),
    /// The model artifact does not match the configuration's axis map.
    ModelLoadError,
    /// The dry-run validation pass failed.
    ShapeNegotiationError,
    /// A real batch violates the negotiated ranges: names the offending
    /// input index and axis index.
    ShapeMismatch { input: usize, axis: usize },
    /// An image source could not be read or decoded: names its path.
    SourceReadError(String),
    /// The engine's embedding width disagrees with the declared hidden size.
    DimensionMismatch { expected: u64, actual: u64 },
    /// The execution backend failed while running a batch.
    ExecutionError,
    /// The vector-index backend rejected a build or query step.
    IndexError,
}

} // verus!
