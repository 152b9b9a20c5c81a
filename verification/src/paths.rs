//! A structural model of file paths, and the derivation of each work item's
//! output path from the input and output roots.
//!
//! A path is held as plain values: the list of directory components under
//! which the file sits, the file name's stem, and its extension (empty when
//! the name has none). The surrounding program converts between this form
//! and the operating system's paths; all path policy is decided here.

use vstd::prelude::*;

verus! {

/// The character sequences of a list of path components.
pub open spec fn names_of(s: Seq<String>) -> Seq<Seq<char>> {
    Seq::new(s.len(), |i: int| s[i]@)
}

/// `names_of` distributes over concatenation.
pub proof fn lemma_names_of_concat(a: Seq<String>, b: Seq<String>)
    ensures
        names_of(a + b) =~= names_of(a) + names_of(b),
{
    assert forall|i: int| 0 <= i < a.len() + b.len() implies names_of(a + b)[i] == (names_of(a)
        + names_of(b))[i] by {
        if i < a.len() {
            assert((a + b)[i] == a[i]);
        } else {
            assert((a + b)[i] == b[i - a.len()]);
        }
    }
}

/// `names_of` distributes over dropping a leading run.
pub proof fn lemma_names_of_skip(s: Seq<String>, k: int)
    requires
        0 <= k <= s.len(),
    ensures
        names_of(s.skip(k)) =~= names_of(s).skip(k),
{
    assert forall|i: int| 0 <= i < s.len() - k implies names_of(s.skip(k))[i] == names_of(s).skip(
        k,
    )[i] by {
        assert(s.skip(k)[i] == s[i + k]);
    }
}

/// A file path as the library reasons about it.
#[derive(Debug, Clone)]
pub struct FilePath {
    /// Directory components from the filesystem root (or any fixed anchor)
    /// down to the file, in order.
    pub dirs: Vec<String>,
    /// The file name without its extension.
    pub stem: String,
    /// The extension after the last dot, lowercase or not as given; empty
    /// when the file name has no extension.
    pub ext: String,
}

/// The mathematical value of a `FilePath`.
#[verifier::ext_equal]
pub struct FilePathView {
    pub dirs: Seq<Seq<char>>,
    pub stem: Seq<char>,
    pub ext: Seq<char>,
}

impl View for FilePath {
    type V = FilePathView;

    open spec fn view(&self) -> FilePathView {
        FilePathView { dirs: names_of(self.dirs@), stem: self.stem@, ext: self.ext@ }
    }
}

/// Why an output path could not be derived.
#[derive(Debug, Clone, PartialEq)]
pub enum PathError {
    /// The source file does not sit under the configured input root.
    NotUnderInputRoot,
}

impl PathError {
    /// A short human-readable description of the error.
    pub fn message(&self) -> (r: String)
        ensures
            r@ == "Input path is not under input directory"@,
    {
        String::from_str("Input path is not under input directory")
    }
}

/// Whether `pre` is a leading run of `whole`, component by component.
pub open spec fn is_seq_prefix(pre: Seq<Seq<char>>, whole: Seq<Seq<char>>) -> bool {
    pre.len() <= whole.len() && forall|i: int| 0 <= i < pre.len() ==> pre[i] == whole[i]
}

/// Where the converted copy of `source` goes. The source must sit under
/// `input_root`. With structure preservation the directories between the
/// input root and the file reappear under the output root; without it the
/// file lands directly in the output root. Either way the stem is kept and
/// the extension becomes the target codec's.
pub open spec fn spec_output_path(
    source: FilePathView,
    input_root: Seq<Seq<char>>,
    output_root: Seq<Seq<char>>,
    preserve: bool,
) -> Option<FilePathView> {
    if !is_seq_prefix(input_root, source.dirs) {
        None
    } else if preserve {
        Some(
            FilePathView {
                dirs: output_root + source.dirs.skip(input_root.len() as int),
                stem: source.stem,
                ext: "webp"@,
            },
        )
    } else {
        Some(FilePathView { dirs: output_root, stem: source.stem, ext: "webp"@ })
    }
}

/// Whether `pre` holds a leading run of `whole`'s components.
fn is_dir_prefix(pre: &Vec<String>, whole: &Vec<String>) -> (r: bool)
    ensures
        r == is_seq_prefix(names_of(pre@), names_of(whole@)),
{
    if pre.len() > whole.len() {
        return false;
    }
    let mut i: usize = 0;
    while i < pre.len()
        invariant
            0 <= i <= pre.len(),
            pre.len() <= whole.len(),
            forall|j: int| 0 <= j < i ==> names_of(pre@)[j] == names_of(whole@)[j],
        decreases pre.len() - i,
    {
        if pre[i] != whole[i] {
            assert(names_of(pre@)[i as int] != names_of(whole@)[i as int]);
            return false;
        }
        assert(names_of(pre@)[i as int] == names_of(whole@)[i as int]);
        i = i + 1;
    }
    true
}

/// Derive the output path of one work item, or report that the item does
/// not sit under the input root. A pure function of its arguments.
pub fn calculate_output_path(
    source: &FilePath,
    input_root: &Vec<String>,
    output_root: &Vec<String>,
    preserve: bool,
) -> (r: Result<FilePath, PathError>)
    ensures
        r is Ok <==> spec_output_path(
            source@,
            names_of(input_root@),
            names_of(output_root@),
            preserve,
        ) is Some,
        r matches Ok(p) ==> Some(p@) == spec_output_path(
            source@,
            names_of(input_root@),
            names_of(output_root@),
            preserve,
        ),
        r matches Err(e) ==> e == PathError::NotUnderInputRoot,
{
    if !is_dir_prefix(input_root, &source.dirs) {
        return Err(PathError::NotUnderInputRoot);
    }
    let mut dirs: Vec<String> = Vec::new();
    let mut i: usize = 0;
    while i < output_root.len()
        invariant
            0 <= i <= output_root.len(),
            dirs@ =~= output_root@.take(i as int),
        decreases output_root.len() - i,
    {
        dirs.push(output_root[i].clone());
        i = i + 1;
    }
    assert(dirs@ =~= output_root@);
    if preserve {
        let mut j: usize = input_root.len();
        while j < source.dirs.len()
            invariant
                input_root.len() <= j <= source.dirs.len(),
                dirs@ =~= output_root@ + source.dirs@.subrange(input_root@.len() as int, j as int),
            decreases source.dirs.len() - j,
        {
            dirs.push(source.dirs[j].clone());
            j = j + 1;
        }
        assert(dirs@ =~= output_root@ + source.dirs@.skip(input_root@.len() as int));
    }
    let out = FilePath { dirs, stem: source.stem.clone(), ext: String::from_str("webp") };
    proof {
        if preserve {
            lemma_names_of_concat(output_root@, source.dirs@.skip(input_root@.len() as int));
            lemma_names_of_skip(source.dirs@, input_root@.len() as int);
            assert(out@.dirs =~= names_of(output_root@) + names_of(source.dirs@).skip(
                names_of(input_root@).len() as int,
            ));
        } else {
            assert(out@.dirs =~= names_of(output_root@));
        }
        assert(Some(out@) =~= spec_output_path(
            source@,
            names_of(input_root@),
            names_of(output_root@),
            preserve,
        ));
    }
    Ok(out)
}

/// Output-path derivation is a pure function: any two derivations from the
/// same source and options yield the same path.
pub proof fn lemma_output_path_deterministic(
    r1: Option<FilePathView>,
    r2: Option<FilePathView>,
    source: FilePathView,
    input_root: Seq<Seq<char>>,
    output_root: Seq<Seq<char>>,
    preserve: bool,
)
    requires
        r1 == spec_output_path(source, input_root, output_root, preserve),
        r2 == spec_output_path(source, input_root, output_root, preserve),
    ensures
        r1 == r2,
{
}

/// Toggling structure preservation changes only the directory shape of the
/// derived path: whenever derivation succeeds, the stem is the source's and
/// the extension is the target codec's, under either setting; and it
/// succeeds under one setting exactly when it succeeds under the other.
pub proof fn lemma_output_path_extension(
    source: FilePathView,
    input_root: Seq<Seq<char>>,
    output_root: Seq<Seq<char>>,
)
    ensures
        spec_output_path(source, input_root, output_root, true) is Some <==> spec_output_path(
            source,
            input_root,
            output_root,
            false,
        ) is Some,
        forall|preserve: bool|
            #[trigger] spec_output_path(source, input_root, output_root, preserve) matches Some(p)
                ==> p.stem == source.stem && p.ext == "webp"@,
{
}

} // verus!
