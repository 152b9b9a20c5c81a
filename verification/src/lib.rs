//! Core library of a batch image to WebP converter.
//!
//! The library holds the decision logic of the converter: recognising image
//! formats by extension and magic bytes, filtering candidate files, deriving
//! output paths, choosing between lossless and lossy encoding, aggregating
//! run statistics, and assembling the final report. File and directory I/O,
//! thread scheduling and presentation live outside the library; they feed it
//! plain values and carry out the actions it decides on.

pub mod bitmap;
pub mod codec;
pub mod converter;
pub mod engine;
pub mod formats;
pub mod options;
pub mod paths;
pub mod progress;
pub mod report;
pub mod scanner;
pub mod selector;
pub mod stats;
pub mod utils;

pub use crate::engine::WebpifyCore;
pub use crate::formats::{ImageFormat, ImageValidationError};
pub use crate::options::{CompressionMode, ConversionOptions, ReplaceInputMode, ReportFormat};
pub use crate::report::ConversionReport;
pub use crate::stats::ConversionStats;
