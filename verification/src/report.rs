//! The immutable record of one finished run. It is assembled exactly once
//! when a run ends, never mutated after, and handed outward for
//! presentation or serialisation.
//!
//! Instants are milliseconds on the clock of whoever drove the run;
//! ratios and rates are scaled integers, so the record holds plain values
//! only: the compression ratio is in thousandths of one, and the file
//! rate in thousandths of a file per second.

use vstd::prelude::*;

verus! {

/// Everything one run produced.
#[derive(Debug, Clone)]
pub struct ConversionReport {
    /// When the run started, in milliseconds.
    pub start_time_ms: u64,
    /// When the run ended, in milliseconds.
    pub end_time_ms: u64,
    /// How long the run took, in milliseconds.
    pub duration_ms: u64,
    /// The input root's components.
    pub input_dir: Vec<String>,
    /// The effective output root's components.
    pub output_dir: Vec<String>,
    /// How many work items the scan enumerated.
    pub total_files: u64,
    /// Converted successfully.
    pub processed_files: u64,
    /// Failed.
    pub failed_files: u64,
    /// Skipped by policy.
    pub skipped_files: u64,
    /// Total bytes of the successfully converted sources.
    pub original_size: u64,
    /// Total bytes written for them.
    pub compressed_size: u64,
    /// One minus the output's share of the input, in thousandths, floored
    /// at zero.
    pub compression_ratio_permille: u64,
    /// Files converted per second, in thousandths.
    pub files_per_second_milli: u64,
    /// Output bytes per second of run time.
    pub bytes_per_second: u64,
    /// How many workers the run used.
    pub thread_count: usize,
    /// The configured lossy quality.
    pub quality: u8,
    /// The configured mode's name.
    pub mode: String,
    /// Per-extension tallies, as labelled pairs.
    pub format_stats: Vec<(String, u64)>,
    /// Every per-file error, one line each.
    pub errors: Vec<String>,
}

/// A whole-run rate scaled by a multiplier: `count * scale` per elapsed
/// second, zero when no time passed, saturated at the counter's maximum.
pub open spec fn spec_rate_scaled(count: u64, duration_ms: u64, scale: int) -> u64 {
    if duration_ms == 0 {
        0u64
    } else {
        let r = count * scale * 1000 / (duration_ms as int);
        if r > u64::MAX {
            u64::MAX
        } else {
            r as u64
        }
    }
}

/// Compute a scaled whole-run rate.
pub fn rate_scaled(count: u64, duration_ms: u64, scale: u64) -> (r: u64)
    requires
        scale <= 1000000,
    ensures
        r == spec_rate_scaled(count, duration_ms, scale as int),
{
    if duration_ms == 0 {
        return 0;
    }
    proof {
        assert((count as int) * (scale as int) <= u64::MAX * 1000000int) by (nonlinear_arith)
            requires
                count <= u64::MAX,
                scale <= 1000000,
        ;
        assert((count as int) * (scale as int) * 1000 <= u64::MAX * 1000000000int) by (
        nonlinear_arith)
            requires
                (count as int) * (scale as int) <= u64::MAX * 1000000int,
        ;
    }
    let q: u128 = (count as u128) * (scale as u128) * 1000 / (duration_ms as u128);
    if q > u64::MAX as u128 {
        u64::MAX
    } else {
        q as u64
    }
}

} // verus!
