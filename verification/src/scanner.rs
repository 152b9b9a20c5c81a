//! Filtering of directory entries into the run's work list.
//!
//! The walk of the input tree happens outside the library; it hands over
//! one `FileEntry` per regular file found (symbolic links are never
//! followed). Which entries become work items is decided and proved here.

use vstd::prelude::*;
use crate::formats::spec_validate_image_file;
use crate::formats::validate_image_file;
use crate::options::ConversionOptions;
use crate::paths::FilePath;
use crate::paths::names_of;
use crate::utils::lower_of;
use crate::utils::lowercase;

verus! {

/// One regular file met by the directory walk, as plain values.
#[derive(Debug)]
pub struct FileEntry {
    pub path: FilePath,
    /// The path as the operating system displays it, for messages.
    pub display: String,
    /// The file's size in bytes.
    pub size: u64,
    /// The file's first bytes: up to twelve, fewer when the file is
    /// shorter.
    pub header: Vec<u8>,
}

/// Whether one entry becomes a work item: its lowercase extension is in
/// the accepted set; a file already in the target codec is taken only when
/// re-encoding is on; its size respects the configured kilobyte minimum
/// and megabyte maximum; and, when header validation is on, its leading
/// bytes match its extension's magic signature.
pub open spec fn spec_is_candidate(e: FileEntry, o: ConversionOptions) -> bool {
    let le = lower_of(e.path.ext@);
    &&& names_of(o.formats@).contains(le)
    &&& (le != "webp"@ || o.reencode_webp)
    &&& e.size >= o.min_size * 1024
    &&& (o.max_size matches Some(m) ==> e.size <= m * 1024 * 1024)
    &&& (o.prescan ==> spec_validate_image_file(le, e.header@) is Ok)
}

/// Whether the accepted set holds this lowercase extension.
fn formats_contain(formats: &Vec<String>, le: &String) -> (r: bool)
    ensures
        r == names_of(formats@).contains(le@),
{
    let mut i: usize = 0;
    while i < formats.len()
        invariant
            0 <= i <= formats.len(),
            forall|j: int| 0 <= j < i ==> names_of(formats@)[j] != le@,
        decreases formats.len() - i,
    {
        if formats[i] == *le {
            assert(names_of(formats@)[i as int] == le@);
            return true;
        }
        assert(names_of(formats@)[i as int] != le@);
        i = i + 1;
    }
    assert(!names_of(formats@).contains(le@));
    false
}

/// Decide whether one entry belongs on the work list.
pub fn is_candidate(entry: &FileEntry, options: &ConversionOptions) -> (r: bool)
    ensures
        r == spec_is_candidate(*entry, *options),
{
    let le = lowercase(&entry.path.ext);
    if !formats_contain(&options.formats, &le) {
        return false;
    }
    if le == String::from_str("webp") && !options.reencode_webp {
        return false;
    }
    if (entry.size as u128) < (options.min_size as u128) * 1024 {
        return false;
    }
    match options.max_size {
        Some(m) => {
            if (entry.size as u128) > (m as u128) * 1024 * 1024 {
                return false;
            }
        },
        None => {},
    }
    if options.prescan {
        if !validate_image_file(&le, &entry.header).is_ok() {
            return false;
        }
    }
    true
}

/// Reduce the walked entries to the run's work list, keeping their order.
pub fn select_candidates(entries: Vec<FileEntry>, options: &ConversionOptions) -> (r: Vec<
    FileEntry,
>)
    ensures
        r@ == entries@.filter(|e: FileEntry| spec_is_candidate(e, *options)),
{
    broadcast use vstd::seq_lib::group_filter_ensures;

    let ghost all = entries@;
    let ghost pred = |e: FileEntry| spec_is_candidate(e, *options);
    let mut out: Vec<FileEntry> = Vec::new();
    let mut rest = entries;
    let mut i: usize = 0;
    let total = rest.len();
    proof {
        assert(all.take(0int).filter(pred) =~= Seq::<FileEntry>::empty().filter(pred));
        reveal(Seq::filter);
    }
    while rest.len() > 0
        invariant
            pred == (|e: FileEntry| spec_is_candidate(e, *options)),
            rest@ =~= all.skip(i as int),
            0 <= i <= all.len(),
            all.len() == total,
            i + rest@.len() == all.len(),
            out@ == all.take(i as int).filter(pred),
        decreases rest@.len(),
    {
        let e = rest.remove(0);
        proof {
            assert(e == all[i as int]);
            assert(rest@ =~= all.skip(i as int + 1));
            assert(all.take(i as int + 1) =~= all.take(i as int).push(e));
            Seq::lemma_filter_push(all.take(i as int), e, pred);
        }
        if is_candidate(&e, options) {
            out.push(e);
            proof {
                assert(pred(all[i as int]) == spec_is_candidate(all[i as int], *options));
                assert(out@ == all.take(i as int + 1).filter(pred));
            }
        } else {
            proof {
                assert(!pred(all[i as int]));
                assert(out@ == all.take(i as int + 1).filter(pred));
            }
        }
        i = i + 1;
    }
    proof {
        assert(all.take(all.len() as int) =~= all);
    }
    out
}

} // verus!
