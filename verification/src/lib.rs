//! Shape-negotiation and batching core of a vision-model execution pipeline.
//!
//! The library models dynamic tensor axes as closed `[min, opt, max]`
//! intervals, binds them to an inference engine at load time, enforces them
//! on every run, batches ordered image sources while preserving enumeration
//! order, and maps nearest-neighbour matches back to their source paths.
//! Image decoding, tensor execution and the vector-index backend live outside
//! the library, behind its callers; everything here is plain verified logic.

pub mod error;
pub mod shape;
pub mod options;
pub mod engine;
pub mod dataloader;
pub mod heatmap;
pub mod dinov2;

pub use crate::dataloader::DataLoader;
pub use crate::dinov2::{Dinov2, Metric, Model};
pub use crate::engine::OrtEngine;
pub use crate::error::{ConfigIssue, Error};
pub use crate::heatmap::{HeatMap, InstanceMeta};
pub use crate::options::{Options, ResizeMode};
pub use crate::shape::MinOptMax;
