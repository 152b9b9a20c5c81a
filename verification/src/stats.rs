//! Per-run statistics: counters, per-format tallies, the structured error
//! list, and the elapsed-time estimator.
//!
//! The aggregate is a plain value with `&mut` mutation methods. A program
//! sharing it across workers wraps it in its own synchronisation; every
//! method's effect is stated exactly, so the aggregate's invariants hold
//! under any interleaving of whole method calls. Wall-clock instants enter
//! only as arguments, in milliseconds.

use vstd::prelude::*;

verus! {

/// One recorded per-file failure.
#[derive(Debug, Clone, PartialEq)]
pub struct ErrorRecord {
    pub file_path: String,
    pub error_message: String,
    pub retry_count: u32,
}

/// Whether a tally list holds an entry for this extension.
pub open spec fn spec_has_key(s: Seq<(String, u64)>, key: Seq<char>) -> bool {
    exists|i: int| 0 <= i < s.len() && s[i].0@ == key
}

/// The tally an extension holds in a tally list: its first entry's count,
/// or zero when it has none.
pub open spec fn spec_tally_of(s: Seq<(String, u64)>, key: Seq<char>) -> u64
    decreases s.len(),
{
    if s.len() == 0 {
        0u64
    } else if s[0].0@ == key {
        s[0].1
    } else {
        spec_tally_of(s.drop_first(), key)
    }
}

/// No two entries of a tally list name the same extension.
pub open spec fn spec_keys_unique(s: Seq<(String, u64)>) -> bool {
    forall|i: int, j: int| 0 <= i < j < s.len() ==> s[i].0@ != s[j].0@
}

/// An extension with no entry tallies zero.
proof fn lemma_tally_absent(s: Seq<(String, u64)>, key: Seq<char>)
    requires
        forall|j: int| 0 <= j < s.len() ==> s[j].0@ != key,
    ensures
        spec_tally_of(s, key) == 0,
    decreases s.len(),
{
    if s.len() > 0 {
        lemma_tally_absent(s.drop_first(), key);
    }
}

/// The tally of an extension is the count of its first entry.
proof fn lemma_tally_first_match(s: Seq<(String, u64)>, i: int, key: Seq<char>)
    requires
        0 <= i < s.len(),
        s[i].0@ == key,
        forall|j: int| 0 <= j < i ==> s[j].0@ != key,
    ensures
        spec_tally_of(s, key) == s[i].1,
    decreases i,
{
    if i > 0 {
        lemma_tally_first_match(s.drop_first(), i - 1, key);
    }
}

/// Replacing one entry by another under the same extension leaves every
/// other extension's tally alone.
proof fn lemma_tally_update_other(s: Seq<(String, u64)>, i: int, p: (String, u64), key: Seq<char>)
    requires
        0 <= i < s.len(),
        s[i].0@ == p.0@,
        key != p.0@,
    ensures
        spec_tally_of(s.update(i, p), key) == spec_tally_of(s, key),
    decreases i,
{
    let t = s.update(i, p);
    if i == 0 {
        assert(t.drop_first() =~= s.drop_first());
    } else {
        assert(t[0] == s[0]);
        assert(t.drop_first() =~= s.drop_first().update(i - 1, p));
        lemma_tally_update_other(s.drop_first(), i - 1, p, key);
    }
}

/// Appending an entry changes only the tally of an extension that had
/// none.
proof fn lemma_tally_push(s: Seq<(String, u64)>, p: (String, u64), key: Seq<char>)
    ensures
        spec_tally_of(s.push(p), key) == if spec_has_key(s, key) {
            spec_tally_of(s, key)
        } else if p.0@ == key {
            p.1
        } else {
            0u64
        },
    decreases s.len(),
{
    if s.len() == 0 {
        assert(s.push(p)[0] == p);
        assert(s.push(p).drop_first() =~= Seq::<(String, u64)>::empty());
        assert(spec_tally_of(Seq::<(String, u64)>::empty(), key) == 0);
        assert(!spec_has_key(s, key));
    } else {
        assert(s.push(p)[0] == s[0]);
        assert(s.push(p).drop_first() =~= s.drop_first().push(p));
        lemma_tally_push(s.drop_first(), p, key);
        assert(spec_has_key(s, key) == (s[0].0@ == key || spec_has_key(s.drop_first(), key)))
            by {
            if s[0].0@ == key {
                assert(spec_has_key(s, key));
            }
            if spec_has_key(s.drop_first(), key) {
                let w = choose|j: int|
                    0 <= j < s.drop_first().len() && s.drop_first()[j].0@ == key;
                assert(s[w + 1].0@ == key);
                assert(spec_has_key(s, key));
            }
            if spec_has_key(s, key) && s[0].0@ != key {
                let w = choose|j: int| 0 <= j < s.len() && s[j].0@ == key;
                assert(s.drop_first()[w - 1].0@ == key);
                assert(spec_has_key(s.drop_first(), key));
            }
        }
        if s[0].0@ == key {
            assert(spec_tally_of(s.push(p), key) == s[0].1);
            assert(spec_tally_of(s, key) == s[0].1);
        } else if spec_has_key(s.drop_first(), key) {
            assert(spec_tally_of(s.push(p), key) == spec_tally_of(s.drop_first(), key));
            assert(spec_tally_of(s, key) == spec_tally_of(s.drop_first(), key));
        } else {
            assert(spec_tally_of(s.push(p), key) == (if p.0@ == key { p.1 } else { 0u64 }));
            assert(!spec_has_key(s, key));
        }
    }
}

/// The mutable statistics of one run. Counters only grow while a run is
/// under way.
#[derive(Debug, Clone)]
pub struct ConversionStats {
    /// Files converted successfully.
    pub processed_count: u64,
    /// Files whose conversion failed.
    pub error_count: u64,
    /// Files skipped by policy.
    pub skipped_count: u64,
    /// Retries noted against recorded errors.
    pub retry_count: u64,
    /// Total bytes of the sources of successful conversions; saturates at
    /// the counter's maximum.
    pub original_size: u64,
    /// Total bytes written for successful conversions; saturates likewise.
    pub compressed_size: u64,
    /// Per-extension tallies of dispatched files, one entry per exact
    /// lowercase extension, in first-recorded order.
    pub format_stats: Vec<(String, u64)>,
    /// Per-file failures, in the order recorded.
    pub errors: Vec<ErrorRecord>,
    /// When the run's timer was started, in milliseconds, if it was.
    pub start_time_ms: Option<u64>,
}

/// The compression ratio scaled to thousandths: zero when nothing was
/// read, and otherwise one minus the output's share of the input, floored
/// at zero when the output outgrew the input.
pub open spec fn spec_ratio_permille(original: u64, compressed: u64) -> u64 {
    if original == 0 {
        0u64
    } else if compressed >= original {
        0u64
    } else {
        (1000 - (compressed * 1000) / (original as int)) as u64
    }
}

/// The compression ratio in thousandths never leaves the unit interval:
/// it is at most 1000, and it is 0 when no input bytes were counted.
pub proof fn lemma_ratio_permille_bounds(original: u64, compressed: u64)
    ensures
        spec_ratio_permille(original, compressed) <= 1000,
        original == 0 ==> spec_ratio_permille(original, compressed) == 0,
        compressed <= original && original > 0 ==> spec_ratio_permille(original, compressed)
            == 1000 - (compressed * 1000) / (original as int),
{
    if original != 0 && compressed < original {
        assert(0 <= (compressed * 1000) / (original as int) < 1000) by (nonlinear_arith)
            requires
                original > 0,
                0 <= compressed < original,
        ;
    }
    if original != 0 && compressed == original {
        assert((compressed * 1000) / (original as int) == 1000) by (nonlinear_arith)
            requires
                original > 0,
                compressed == original,
        ;
    }
}

impl ConversionStats {
    /// Fresh statistics: every counter zero, no errors, no timer.
    pub fn new() -> (r: ConversionStats)
        ensures
            r.processed_count == 0,
            r.error_count == 0,
            r.skipped_count == 0,
            r.retry_count == 0,
            r.original_size == 0,
            r.compressed_size == 0,
            r.format_stats@.len() == 0,
            r.errors@.len() == 0,
            r.start_time_ms is None,
    {
        ConversionStats {
            processed_count: 0,
            error_count: 0,
            skipped_count: 0,
            retry_count: 0,
            original_size: 0,
            compressed_size: 0,
            format_stats: Vec::new(),
            errors: Vec::new(),
            start_time_ms: None,
        }
    }

    /// Start the run's timer at the given instant.
    pub fn start_timer(&mut self, now_ms: u64)
        ensures
            *final(self) == (ConversionStats { start_time_ms: Some(now_ms), ..*old(self) }),
    {
        self.start_time_ms = Some(now_ms);
    }

    /// Record one successful conversion and its byte sizes.
    pub fn record_success(&mut self, original: u64, compressed: u64)
        requires
            old(self).processed_count < u64::MAX,
        ensures
            *final(self) == (ConversionStats {
                processed_count: (old(self).processed_count + 1) as u64,
                original_size: old(self).original_size.saturating_add(original),
                compressed_size: old(self).compressed_size.saturating_add(compressed),
                ..*old(self)
            }),
    {
        self.processed_count = self.processed_count + 1;
        self.original_size = self.original_size.saturating_add(original);
        self.compressed_size = self.compressed_size.saturating_add(compressed);
    }

    /// Record one failed conversion with the file's display path and the
    /// failure's message.
    pub fn record_error(&mut self, file_path: String, error: String)
        requires
            old(self).error_count < u64::MAX,
        ensures
            final(self).error_count == old(self).error_count + 1,
            final(self).errors@ == old(self).errors@.push(
                ErrorRecord { file_path, error_message: error, retry_count: 0u32 },
            ),
            final(self).processed_count == old(self).processed_count,
            final(self).skipped_count == old(self).skipped_count,
            final(self).retry_count == old(self).retry_count,
            final(self).original_size == old(self).original_size,
            final(self).compressed_size == old(self).compressed_size,
            final(self).format_stats == old(self).format_stats,
            final(self).start_time_ms == old(self).start_time_ms,
    {
        self.error_count = self.error_count + 1;
        self.errors.push(ErrorRecord { file_path, error_message: error, retry_count: 0 });
    }

    /// Append a note that a file's post-conversion disposition failed.
    /// The conversion itself succeeded, so the failure counter does not
    /// move: only the error list gains a marked entry.
    pub fn record_disposition_failure(&mut self, file_path: String, cause: String)
        ensures
            final(self).errors@.len() == old(self).errors@.len() + 1,
            final(self).errors@.subrange(0, old(self).errors@.len() as int) == old(self).errors@,
            final(self).errors@.last().file_path == file_path,
            final(self).errors@.last().error_message@ == "disposition failed: "@ + cause@,
            final(self).errors@.last().retry_count == 0u32,
            final(self).processed_count == old(self).processed_count,
            final(self).error_count == old(self).error_count,
            final(self).skipped_count == old(self).skipped_count,
            final(self).retry_count == old(self).retry_count,
            final(self).original_size == old(self).original_size,
            final(self).compressed_size == old(self).compressed_size,
            final(self).format_stats == old(self).format_stats,
            final(self).start_time_ms == old(self).start_time_ms,
    {
        let message = String::from_str("disposition failed: ").concat(cause.as_str());
        self.errors.push(ErrorRecord { file_path, error_message: message, retry_count: 0 });
        proof {
            assert(self.errors@.subrange(0, old(self).errors@.len() as int) =~= old(self).errors@);
        }
    }

    /// Record one skipped file.
    pub fn record_skip(&mut self)
        requires
            old(self).skipped_count < u64::MAX,
        ensures
            *final(self) == (ConversionStats {
                skipped_count: (old(self).skipped_count + 1) as u64,
                ..*old(self)
            }),
    {
        self.skipped_count = self.skipped_count + 1;
    }

    /// Note a retry against the most recent error recorded for this
    /// display path; without such an error only the retry counter moves.
    /// A record's own retry tally saturates.
    pub fn record_retry(&mut self, file_path: &String)
        requires
            old(self).retry_count < u64::MAX,
        ensures
            final(self).retry_count == old(self).retry_count + 1,
            final(self).processed_count == old(self).processed_count,
            final(self).error_count == old(self).error_count,
            final(self).skipped_count == old(self).skipped_count,
            final(self).original_size == old(self).original_size,
            final(self).compressed_size == old(self).compressed_size,
            final(self).format_stats == old(self).format_stats,
            final(self).start_time_ms == old(self).start_time_ms,
            (forall|j: int|
                0 <= j < old(self).errors@.len() ==> old(self).errors@[j].file_path@
                    != file_path@) ==> final(self).errors@ == old(self).errors@,
            (exists|j: int|
                0 <= j < old(self).errors@.len() && old(self).errors@[j].file_path@ == file_path@)
                ==> exists|j: int|
                {
                    &&& 0 <= j < old(self).errors@.len()
                    &&& old(self).errors@[j].file_path@ == file_path@
                    &&& forall|k: int|
                        j < k < old(self).errors@.len() ==> old(
                            self,
                        ).errors@[k].file_path@ != file_path@
                    &&& final(self).errors@ == old(self).errors@.update(
                        j,
                        ErrorRecord {
                            retry_count: old(self).errors@[j].retry_count.saturating_add(1u32),
                            ..old(self).errors@[j]
                        },
                    )
                },
    {
        self.retry_count = self.retry_count + 1;
        let mut i: usize = self.errors.len();
        while i > 0
            invariant
                0 <= i <= self.errors.len(),
                self.errors@ == old(self).errors@,
                self.retry_count == old(self).retry_count + 1,
                self.processed_count == old(self).processed_count,
                self.error_count == old(self).error_count,
                self.skipped_count == old(self).skipped_count,
                self.original_size == old(self).original_size,
                self.compressed_size == old(self).compressed_size,
                self.format_stats == old(self).format_stats,
                self.start_time_ms == old(self).start_time_ms,
                forall|k: int|
                    i <= k < self.errors@.len() ==> self.errors@[k].file_path@ != file_path@,
            decreases i,
        {
            i = i - 1;
            if self.errors[i].file_path == *file_path {
                let bumped = self.errors[i].retry_count.saturating_add(1);
                let ghost before = self.errors@;
                let rec = ErrorRecord {
                    file_path: self.errors[i].file_path.clone(),
                    error_message: self.errors[i].error_message.clone(),
                    retry_count: bumped,
                };
                self.errors.set(i, rec);
                proof {
                    assert(self.errors@ =~= before.update(
                        i as int,
                        ErrorRecord {
                            retry_count: before[i as int].retry_count.saturating_add(1u32),
                            ..before[i as int]
                        },
                    ));
                }
                return ;
            }
        }
    }

    /// Tally one dispatched file under its exact lowercase extension: the
    /// extension's tally rises by one (a first sighting starts at one),
    /// every other extension's tally stays, and no extension gains a
    /// second entry.
    pub fn record_format(&mut self, ext: String)
        requires
            spec_tally_of(old(self).format_stats@, ext@) < u64::MAX,
        ensures
            spec_tally_of(final(self).format_stats@, ext@) == spec_tally_of(
                old(self).format_stats@,
                ext@,
            ) + 1,
            forall|k: Seq<char>|
                k != ext@ ==> #[trigger] spec_tally_of(final(self).format_stats@, k)
                    == spec_tally_of(old(self).format_stats@, k),
            spec_keys_unique(old(self).format_stats@) ==> spec_keys_unique(
                final(self).format_stats@,
            ),
            final(self).processed_count == old(self).processed_count,
            final(self).error_count == old(self).error_count,
            final(self).skipped_count == old(self).skipped_count,
            final(self).retry_count == old(self).retry_count,
            final(self).original_size == old(self).original_size,
            final(self).compressed_size == old(self).compressed_size,
            final(self).errors@ == old(self).errors@,
            final(self).start_time_ms == old(self).start_time_ms,
    {
        let ghost before = self.format_stats@;
        let mut i: usize = 0;
        while i < self.format_stats.len()
            invariant
                0 <= i <= self.format_stats@.len(),
                *self == *old(self),
                before == self.format_stats@,
                spec_tally_of(before, ext@) < u64::MAX,
                forall|j: int| 0 <= j < i ==> self.format_stats@[j].0@ != ext@,
            decreases self.format_stats@.len() - i,
        {
            if self.format_stats[i].0 == ext {
                proof {
                    lemma_tally_first_match(before, i as int, ext@);
                }
                let count = self.format_stats[i].1;
                let entry = (self.format_stats[i].0.clone(), count + 1);
                self.format_stats.set(i, entry);
                proof {
                    let after = self.format_stats@;
                    assert(after == before.update(
                        i as int,
                        (before[i as int].0, (before[i as int].1 + 1) as u64),
                    ));
                    lemma_tally_first_match(after, i as int, ext@);
                    assert forall|k: Seq<char>| k != ext@ implies #[trigger] spec_tally_of(
                        after,
                        k,
                    ) == spec_tally_of(before, k) by {
                        lemma_tally_update_other(
                            before,
                            i as int,
                            (before[i as int].0, (before[i as int].1 + 1) as u64),
                            k,
                        );
                    }
                }
                return ;
            }
            i = i + 1;
        }
        proof {
            lemma_tally_absent(before, ext@);
        }
        self.format_stats.push((ext, 1));
        proof {
            let p = self.format_stats@.last();
            assert(self.format_stats@ == before.push(p) && p.0@ == ext@ && p.1 == 1u64);
            assert(!spec_has_key(before, ext@));
            assert forall|k: Seq<char>| #[trigger] spec_tally_of(self.format_stats@, k)
                == if k == ext@ {
                1u64
            } else {
                spec_tally_of(before, k)
            } by {
                lemma_tally_push(before, p, k);
                if k != ext@ && !spec_has_key(before, k) {
                    lemma_tally_absent(before, k);
                }
            }
        }
    }

    /// Read the tally of one exact lowercase extension.
    pub fn format_tally(&self, ext: &String) -> (r: u64)
        ensures
            r == spec_tally_of(self.format_stats@, ext@),
    {
        let mut i: usize = 0;
        while i < self.format_stats.len()
            invariant
                0 <= i <= self.format_stats@.len(),
                forall|j: int| 0 <= j < i ==> self.format_stats@[j].0@ != ext@,
            decreases self.format_stats@.len() - i,
        {
            if self.format_stats[i].0 == *ext {
                proof {
                    lemma_tally_first_match(self.format_stats@, i as int, ext@);
                }
                return self.format_stats[i].1;
            }
            i = i + 1;
        }
        proof {
            lemma_tally_absent(self.format_stats@, ext@);
        }
        0
    }

    /// How long the run may still take, in milliseconds: the remaining
    /// files at the pace so far. Nothing can be estimated before the timer
    /// started or the first file was processed.
    pub fn estimate_eta(&self, total_files: u64, now_ms: u64) -> (r: Option<u64>)
        ensures
            r == spec_estimate_eta(*self, total_files, now_ms),
    {
        if self.processed_count == 0 || total_files == 0 {
            return None;
        }
        match self.start_time_ms {
            None => None,
            Some(start) => {
                let elapsed: u64 = now_ms.saturating_sub(start);
                let remaining: u64 = total_files.saturating_sub(self.processed_count);
                assert((remaining as int) * (elapsed as int) <= u64::MAX * u64::MAX) by (
                nonlinear_arith)
                    requires
                        remaining <= u64::MAX,
                        elapsed <= u64::MAX,
                ;
                let prod: u128 = (remaining as u128) * (elapsed as u128);
                let q: u128 = prod / (self.processed_count as u128);
                if q > u64::MAX as u128 {
                    Some(u64::MAX)
                } else {
                    Some(q as u64)
                }
            },
        }
    }

    /// The compression ratio of the run so far, in thousandths.
    pub fn compression_ratio_permille(&self) -> (r: u64)
        ensures
            r == spec_ratio_permille(self.original_size, self.compressed_size),
    {
        compression_ratio_permille(self.original_size, self.compressed_size)
    }

    /// The per-extension tallies as labelled pairs, one per extension
    /// met, in first-recorded order.
    pub fn get_format_stats(&self) -> (r: Vec<(String, u64)>)
        ensures
            labelled_pairs(r@) =~= labelled_pairs(self.format_stats@),
    {
        let mut r: Vec<(String, u64)> = Vec::new();
        let mut i: usize = 0;
        while i < self.format_stats.len()
            invariant
                0 <= i <= self.format_stats@.len(),
                r@.len() == i,
                forall|j: int|
                    0 <= j < i ==> #[trigger] r@[j].0@ == self.format_stats@[j].0@ && r@[j].1
                        == self.format_stats@[j].1,
            decreases self.format_stats@.len() - i,
        {
            r.push((self.format_stats[i].0.clone(), self.format_stats[i].1));
            i = i + 1;
        }
        r
    }

    /// Every recorded error as one line, `path: message`, in order.
    pub fn get_errors(&self) -> (r: Vec<String>)
        ensures
            r@.len() == self.errors@.len(),
            forall|i: int|
                0 <= i < r@.len() ==> #[trigger] r@[i]@ == self.errors@[i].file_path@ + ": "@
                    + self.errors@[i].error_message@,
    {
        let mut r: Vec<String> = Vec::new();
        let mut i: usize = 0;
        while i < self.errors.len()
            invariant
                0 <= i <= self.errors@.len(),
                r@.len() == i,
                forall|j: int|
                    0 <= j < i ==> #[trigger] r@[j]@ == self.errors@[j].file_path@ + ": "@
                        + self.errors@[j].error_message@,
            decreases self.errors@.len() - i,
        {
            let line = self.errors[i].file_path.clone().concat(": ").concat(
                self.errors[i].error_message.as_str(),
            );
            r.push(line);
            i = i + 1;
        }
        r
    }
}

impl Default for ConversionStats {
    /// The same as fresh statistics.
    fn default() -> (r: Self)
        ensures
            r.processed_count == 0,
            r.error_count == 0,
            r.skipped_count == 0,
            r.retry_count == 0,
            r.original_size == 0,
            r.compressed_size == 0,
            r.format_stats@.len() == 0,
            r.errors@.len() == 0,
            r.start_time_ms is None,
    {
        ConversionStats::new()
    }
}

/// What `estimate_eta` answers: nothing before the timer started, the
/// first file was processed, or with no files at all; otherwise the
/// remaining files times the milliseconds spent per file so far, saturated
/// at the counter's maximum.
pub open spec fn spec_estimate_eta(s: ConversionStats, total_files: u64, now_ms: u64) -> Option<
    u64,
> {
    if s.processed_count == 0 || total_files == 0 || s.start_time_ms is None {
        None
    } else {
        let start = s.start_time_ms->0;
        let elapsed = if now_ms >= start {
            now_ms - start
        } else {
            0
        };
        let remaining = if total_files >= s.processed_count {
            total_files - s.processed_count
        } else {
            0
        };
        let eta = (remaining * elapsed) / (s.processed_count as int);
        if eta > u64::MAX {
            Some(u64::MAX)
        } else {
            Some(eta as u64)
        }
    }
}

/// The compression ratio of two byte totals, in thousandths.
pub fn compression_ratio_permille(original: u64, compressed: u64) -> (r: u64)
    ensures
        r == spec_ratio_permille(original, compressed),
        r <= 1000,
{
    proof {
        lemma_ratio_permille_bounds(original, compressed);
    }
    if original == 0 {
        0
    } else if compressed >= original {
        0
    } else {
        let share: u128 = ((compressed as u128) * 1000u128) / (original as u128);
        assert((compressed * 1000) / (original as int) < 1000) by (nonlinear_arith)
            requires
                original > 0,
                compressed < original,
        ;
        1000 - (share as u64)
    }
}

/// The character-sequence form of labelled counters.
pub open spec fn labelled_pairs(s: Seq<(String, u64)>) -> Seq<(Seq<char>, u64)> {
    Seq::new(s.len(), |i: int| (s[i].0@, s[i].1))
}

} // verus!
