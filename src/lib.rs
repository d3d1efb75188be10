//! Orchestration of an external image-upscaling worker: a mutually exclusive
//! sizing configuration, the environment-variable protocol handed to the
//! worker, and the interpretation of what the worker reports back.
//!
//! Starting the worker, feeding it, waiting on it with a time limit and
//! handling temporary files are left to the caller; this crate decides what
//! the worker is told and what its ending means.

pub mod error;
pub mod protocol;
pub mod report;
pub mod request;
pub mod sizing;
pub mod text;
pub mod upscaler;

pub use error::UpscaleError;
pub use protocol::{conclude, destination_is_png, WorkerOutcome};
pub use report::{parse_dimensions, parse_output, parse_u32};
pub use request::{Opt, Resolution, TargetSize};
pub use sizing::Sizing;
pub use text::convert;
pub use upscaler::Upscaler;
