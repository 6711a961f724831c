//! In-process metrics aggregation: callers record scalar samples against
//! named measures, and the library maintains rolling sums and sample counts
//! over three fixed time granularities (seconds, hours, days) using circular
//! buffers of time buckets.

pub mod clock;
pub mod intervals;
pub mod laws;
pub mod measure;
pub mod registry;
pub mod rollup;

pub use measure::Measure;
pub use registry::{MeasureHandle, Measures};
pub use rollup::Rollup;
