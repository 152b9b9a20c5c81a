//! The orchestration core of a run. It owns the options and the
//! statistics, plans each work item, books every item's outcome exactly
//! once, and assembles the final report.
//!
//! The surrounding program drives the loop: it walks the input tree,
//! checks the filesystem, calls the codec, performs disposition actions,
//! and between those steps asks this core what to do and tells it what
//! happened. The core's accounting invariant makes the final report add
//! up: every enumerated item is processed, failed or skipped.

use vstd::prelude::*;
use crate::formats::ImageFormat;
use crate::formats::spec_parse_format;
use crate::formats::parse_format;
use crate::options::ConversionOptions;
use crate::paths::FilePath;
use crate::paths::PathError;
use crate::paths::calculate_output_path;
use crate::paths::names_of;
use crate::paths::spec_output_path;
use crate::report::ConversionReport;
use crate::report::rate_scaled;
use crate::report::spec_rate_scaled;
use crate::stats::ConversionStats;
use crate::stats::compression_ratio_permille;
use crate::stats::labelled_pairs;
use crate::stats::spec_keys_unique;
use crate::stats::spec_tally_of;
use crate::stats::spec_ratio_permille;
use crate::utils::lower_of;
use crate::utils::lowercase;

verus! {

/// What the core decides about one work item before any outside action.
pub struct ItemPlan {
    /// Where the converted file goes.
    pub output: FilePath,
    /// The item's extension, lowercased: the key of its per-format tally.
    pub ext_lower: String,
    /// The recognised format that extension names, if any, for the codec
    /// heuristics.
    pub format: Option<ImageFormat>,
}

/// The conversion engine of one run.
pub struct WebpifyCore {
    /// The run's configuration snapshot.
    pub options: ConversionOptions,
    /// The run's statistics so far.
    pub stats: ConversionStats,
    /// How many work items the run holds.
    pub total: u64,
    /// How many work items have been booked as processed, failed or
    /// skipped.
    pub completed: u64,
}

impl WebpifyCore {
    /// The accounting invariant: every booked item is processed, failed
    /// or skipped, and no more items are booked than the run holds.
    pub open spec fn wf(&self) -> bool {
        &&& self.completed == self.stats.processed_count + self.stats.error_count
            + self.stats.skipped_count
        &&& self.completed <= self.total
    }

    /// A fresh engine over the given options.
    pub fn new(options: ConversionOptions) -> (r: Self)
        ensures
            r.options == options,
            r.total == 0,
            r.completed == 0,
            r.stats.processed_count == 0,
            r.stats.error_count == 0,
            r.stats.skipped_count == 0,
            r.stats.original_size == 0,
            r.stats.compressed_size == 0,
            r.stats.errors@.len() == 0,
            r.wf(),
    {
        WebpifyCore { options, stats: ConversionStats::new(), total: 0, completed: 0 }
    }

    /// The run's statistics so far.
    pub fn get_stats(&self) -> (r: &ConversionStats)
        ensures
            *r == self.stats,
    {
        &self.stats
    }

    /// Fix the work list's length and start the clock. Begins a run on a
    /// fresh engine.
    pub fn begin_run(&mut self, total_files: u64, start_ms: u64)
        requires
            old(self).wf(),
            old(self).completed == 0,
        ensures
            final(self).wf(),
            final(self).options == old(self).options,
            final(self).total == total_files,
            final(self).completed == 0,
            final(self).stats == (ConversionStats {
                start_time_ms: Some(start_ms),
                ..old(self).stats
            }),
    {
        self.total = total_files;
        self.stats.start_timer(start_ms);
    }

    /// Plan one work item: derive its output path and name the format its
    /// extension claims. Fails exactly when the item does not sit under
    /// the input root.
    pub fn plan_item(&self, source: &FilePath) -> (r: Result<ItemPlan, PathError>)
        ensures
            r is Ok <==> spec_output_path(
                source@,
                names_of(self.options.input_dir@),
                self.options.spec_effective_output_root(),
                self.options.preserve_structure,
            ) is Some,
            r matches Ok(p) ==> Some(p.output@) == spec_output_path(
                source@,
                names_of(self.options.input_dir@),
                self.options.spec_effective_output_root(),
                self.options.preserve_structure,
            ) && p.ext_lower@ == lower_of(source.ext@) && p.format == spec_parse_format(
                lower_of(source.ext@),
            ),
    {
        let output_root = self.options.get_output_dir();
        let output = match calculate_output_path(
            source,
            &self.options.input_dir,
            &output_root,
            self.options.preserve_structure,
        ) {
            Ok(p) => p,
            Err(e) => {
                return Err(e);
            },
        };
        let ext_lower = lowercase(&source.ext);
        let format = parse_format(&ext_lower);
        Ok(ItemPlan { output, ext_lower, format })
    }

    /// Whether an item whose destination already exists is skipped: it is
    /// unless overwriting is on. A skipped item sees no codec call.
    pub fn should_skip_existing(&self, dest_exists: bool) -> (r: bool)
        ensures
            r == (dest_exists && !self.options.overwrite),
    {
        dest_exists && !self.options.overwrite
    }

    /// Whether the source file's disposition action runs after a
    /// successful conversion: only under a live run, and only when the
    /// policy asks for one. A dry run touches no file.
    pub fn should_perform_disposition(&self) -> (r: bool)
        ensures
            r == (!self.options.dry_run && !(self.options.replace_input is Off)),
    {
        !self.options.dry_run && !matches!(self.options.replace_input, crate::options::ReplaceInputMode::Off)
    }

    /// Whether the run creates the output root before dispatch: a live
    /// run does; a dry run touches no file, the output root included.
    pub fn should_create_output_root(&self) -> (r: bool)
        ensures
            r == !self.options.dry_run,
    {
        !self.options.dry_run
    }

    /// Tally one dispatched item under its exact lowercase extension.
    pub fn note_format(&mut self, ext_lower: String)
        requires
            spec_tally_of(old(self).stats.format_stats@, ext_lower@) < u64::MAX,
        ensures
            spec_tally_of(final(self).stats.format_stats@, ext_lower@) == spec_tally_of(
                old(self).stats.format_stats@,
                ext_lower@,
            ) + 1,
            forall|k: Seq<char>|
                k != ext_lower@ ==> #[trigger] spec_tally_of(final(self).stats.format_stats@, k)
                    == spec_tally_of(old(self).stats.format_stats@, k),
            spec_keys_unique(old(self).stats.format_stats@) ==> spec_keys_unique(
                final(self).stats.format_stats@,
            ),
            final(self).options == old(self).options,
            final(self).total == old(self).total,
            final(self).completed == old(self).completed,
            final(self).stats.processed_count == old(self).stats.processed_count,
            final(self).stats.error_count == old(self).stats.error_count,
            final(self).stats.skipped_count == old(self).stats.skipped_count,
            final(self).stats.original_size == old(self).stats.original_size,
            final(self).stats.compressed_size == old(self).stats.compressed_size,
            final(self).stats.errors@ == old(self).stats.errors@,
            final(self).stats.start_time_ms == old(self).stats.start_time_ms,
            old(self).wf() ==> final(self).wf(),
    {
        self.stats.record_format(ext_lower);
    }

    /// Book one item skipped: its destination existed and overwriting is
    /// off, or policy left it alone.
    pub fn note_skip(&mut self)
        requires
            old(self).wf(),
            old(self).completed < old(self).total,
        ensures
            final(self).wf(),
            final(self).options == old(self).options,
            final(self).total == old(self).total,
            final(self).completed == old(self).completed + 1,
            final(self).stats == (ConversionStats {
                skipped_count: (old(self).stats.skipped_count + 1) as u64,
                ..old(self).stats
            }),
    {
        self.stats.record_skip();
        self.completed = self.completed + 1;
    }

    /// Book one item converted, with its byte sizes; when the input
    /// file's disposition afterwards failed, note that in the error list
    /// without counting the item as failed.
    pub fn note_success(
        &mut self,
        original: u64,
        compressed: u64,
        disposition_failure: Option<(String, String)>,
    )
        requires
            old(self).wf(),
            old(self).completed < old(self).total,
        ensures
            final(self).wf(),
            final(self).options == old(self).options,
            final(self).total == old(self).total,
            final(self).completed == old(self).completed + 1,
            final(self).stats.processed_count == old(self).stats.processed_count + 1,
            final(self).stats.error_count == old(self).stats.error_count,
            final(self).stats.skipped_count == old(self).stats.skipped_count,
            final(self).stats.original_size == old(self).stats.original_size.saturating_add(
                original,
            ),
            final(self).stats.compressed_size == old(self).stats.compressed_size.saturating_add(
                compressed,
            ),
            final(self).stats.format_stats == old(self).stats.format_stats,
            final(self).stats.start_time_ms == old(self).stats.start_time_ms,
            disposition_failure is None ==> final(self).stats.errors@ == old(self).stats.errors@,
            disposition_failure matches Some(f) ==> {
                &&& final(self).stats.errors@.len() == old(self).stats.errors@.len() + 1
                &&& final(self).stats.errors@.subrange(0, old(self).stats.errors@.len() as int)
                    == old(self).stats.errors@
                &&& final(self).stats.errors@.last().file_path == f.0
                &&& final(self).stats.errors@.last().error_message@ == "disposition failed: "@
                    + f.1@
            },
    {
        self.stats.record_success(original, compressed);
        match disposition_failure {
            None => {},
            Some(f) => {
                self.stats.record_disposition_failure(f.0, f.1);
            },
        }
        self.completed = self.completed + 1;
    }

    /// Book one item failed, with the file's display path and the
    /// failure's message.
    pub fn note_failure(&mut self, display: String, message: String)
        requires
            old(self).wf(),
            old(self).completed < old(self).total,
        ensures
            final(self).wf(),
            final(self).options == old(self).options,
            final(self).total == old(self).total,
            final(self).completed == old(self).completed + 1,
            final(self).stats.processed_count == old(self).stats.processed_count,
            final(self).stats.error_count == old(self).stats.error_count + 1,
            final(self).stats.skipped_count == old(self).stats.skipped_count,
            final(self).stats.original_size == old(self).stats.original_size,
            final(self).stats.compressed_size == old(self).stats.compressed_size,
            final(self).stats.format_stats == old(self).stats.format_stats,
            final(self).stats.start_time_ms == old(self).stats.start_time_ms,
            final(self).stats.errors@ == old(self).stats.errors@.push(
                crate::stats::ErrorRecord {
                    file_path: display,
                    error_message: message,
                    retry_count: 0u32,
                },
            ),
    {
        self.stats.record_error(display, message);
        self.completed = self.completed + 1;
    }

    /// Assemble the final report once every work item is booked. The
    /// counts add up: processed, failed and skipped together cover the
    /// whole work list.
    pub fn finish_run(&self, end_ms: u64, thread_count: usize) -> (r: ConversionReport)
        requires
            self.wf(),
            self.completed == self.total,
            self.stats.start_time_ms is Some,
        ensures
            r.processed_files + r.failed_files + r.skipped_files == r.total_files,
            r.total_files == self.total,
            r.processed_files == self.stats.processed_count,
            r.failed_files == self.stats.error_count,
            r.skipped_files == self.stats.skipped_count,
            r.original_size == self.stats.original_size,
            r.compressed_size == self.stats.compressed_size,
            r.compression_ratio_permille == spec_ratio_permille(
                self.stats.original_size,
                self.stats.compressed_size,
            ),
            r.start_time_ms == self.stats.start_time_ms->0,
            r.end_time_ms == end_ms,
            r.duration_ms == end_ms.saturating_sub(self.stats.start_time_ms->0),
            r.files_per_second_milli == spec_rate_scaled(
                self.stats.processed_count,
                r.duration_ms,
                1000,
            ),
            r.bytes_per_second == spec_rate_scaled(self.stats.compressed_size, r.duration_ms, 1),
            names_of(r.input_dir@) == names_of(self.options.input_dir@),
            names_of(r.output_dir@) == self.options.spec_effective_output_root(),
            r.thread_count == thread_count,
            r.quality == self.options.quality,
            self.options.mode is Lossless ==> r.mode@ == "Lossless"@,
            self.options.mode is Lossy ==> r.mode@ == "Lossy"@,
            self.options.mode is Auto ==> r.mode@ == "Auto"@,
            labelled_pairs(r.format_stats@) =~= labelled_pairs(self.stats.format_stats@),
            r.errors@.len() == self.stats.errors@.len(),
            forall|i: int|
                0 <= i < r.errors@.len() ==> #[trigger] r.errors@[i]@
                    == self.stats.errors@[i].file_path@ + ": "@
                    + self.stats.errors@[i].error_message@,
    {
        let start_ms = match self.stats.start_time_ms {
            Some(s) => s,
            None => 0,
        };
        let duration_ms = end_ms.saturating_sub(start_ms);
        ConversionReport {
            start_time_ms: start_ms,
            end_time_ms: end_ms,
            duration_ms,
            input_dir: crate::options::copy_components(&self.options.input_dir),
            output_dir: self.options.get_output_dir(),
            total_files: self.total,
            processed_files: self.stats.processed_count,
            failed_files: self.stats.error_count,
            skipped_files: self.stats.skipped_count,
            original_size: self.stats.original_size,
            compressed_size: self.stats.compressed_size,
            compression_ratio_permille: compression_ratio_permille(
                self.stats.original_size,
                self.stats.compressed_size,
            ),
            files_per_second_milli: rate_scaled(self.stats.processed_count, duration_ms, 1000),
            bytes_per_second: rate_scaled(self.stats.compressed_size, duration_ms, 1),
            thread_count,
            quality: self.options.quality,
            mode: self.options.mode.label(),
            format_stats: self.stats.get_format_stats(),
            errors: self.stats.get_errors(),
        }
    }

    /// The report of a run that found no files at all: zero counts and a
    /// single informational entry in the error list. Such a run is not a
    /// failure.
    pub fn empty_report(&self, start_ms: u64, end_ms: u64, thread_count: usize) -> (r:
        ConversionReport)
        ensures
            r.total_files == 0,
            r.processed_files == 0,
            r.failed_files == 0,
            r.skipped_files == 0,
            r.processed_files + r.failed_files + r.skipped_files == r.total_files,
            r.original_size == 0,
            r.compressed_size == 0,
            r.compression_ratio_permille == 0,
            r.files_per_second_milli == 0,
            r.bytes_per_second == 0,
            r.start_time_ms == start_ms,
            r.end_time_ms == end_ms,
            r.duration_ms == end_ms.saturating_sub(start_ms),
            names_of(r.input_dir@) == names_of(self.options.input_dir@),
            names_of(r.output_dir@) == self.options.spec_effective_output_root(),
            r.thread_count == thread_count,
            r.quality == self.options.quality,
            self.options.mode is Lossless ==> r.mode@ == "Lossless"@,
            self.options.mode is Lossy ==> r.mode@ == "Lossy"@,
            self.options.mode is Auto ==> r.mode@ == "Auto"@,
            r.format_stats@.len() == 0,
            r.errors@.len() == 1,
            r.errors@[0]@ == "No supported image files found in the specified directory"@,
    {
        let mut errors: Vec<String> = Vec::new();
        errors.push(String::from_str("No supported image files found in the specified directory"));
        ConversionReport {
            start_time_ms: start_ms,
            end_time_ms: end_ms,
            duration_ms: end_ms.saturating_sub(start_ms),
            input_dir: crate::options::copy_components(&self.options.input_dir),
            output_dir: self.options.get_output_dir(),
            total_files: 0,
            processed_files: 0,
            failed_files: 0,
            skipped_files: 0,
            original_size: 0,
            compressed_size: 0,
            compression_ratio_permille: 0,
            files_per_second_milli: 0,
            bytes_per_second: 0,
            thread_count,
            quality: self.options.quality,
            mode: self.options.mode.label(),
            format_stats: Vec::new(),
            errors,
        }
    }
}

} // verus!
