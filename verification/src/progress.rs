//! The progress sink a run reports into. Any presentation — console,
//! graphical, none — implements this trait outside the library; the
//! methods with empty default bodies are optional hooks.

use vstd::prelude::*;

verus! {

/// A sink for conversion progress.
pub trait ProgressReporter {
    /// Learn the total number of files to be processed.
    fn set_total_files(&self, total: usize);

    /// Learn the current processed and failed counts.
    fn update_progress(&self, processed: usize, failed: usize);

    /// Conversion started.
    fn start_conversion(&self) {
    }

    /// Conversion finished.
    fn finish_conversion(&self) {
    }

    /// One file failed.
    fn report_error(&self, _file_path: &str, _error: &str) {
    }

    /// One file converted.
    fn report_success(&self, _file_path: &str, _original_size: u64, _compressed_size: u64) {
    }
}

/// A sink that ignores everything.
pub struct NoOpProgressReporter;

impl ProgressReporter for NoOpProgressReporter {
    fn set_total_files(&self, _total: usize) {
    }

    fn update_progress(&self, _processed: usize, _failed: usize) {
    }
}

} // verus!
