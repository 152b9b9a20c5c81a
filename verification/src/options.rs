//! Run configuration: compression mode, input disposition, report format,
//! and the options snapshot a run is driven by.

use vstd::prelude::*;
use crate::paths::names_of;

verus! {

/// How the target codec compresses.
#[derive(Debug, Clone, Copy, PartialEq, Eq, Structural)]
pub enum CompressionMode {
    /// Lossless compression (larger files but perfect quality).
    Lossless,
    /// Lossy compression (smaller files with slight quality loss).
    Lossy,
    /// Choose per image from its characteristics.
    Auto,
}

impl CompressionMode {
    /// The mode's name, as the report prints it.
    pub fn label(&self) -> (r: String)
        ensures
            self is Lossless ==> r@ == "Lossless"@,
            self is Lossy ==> r@ == "Lossy"@,
            self is Auto ==> r@ == "Auto"@,
    {
        match self {
            CompressionMode::Lossless => String::from_str("Lossless"),
            CompressionMode::Lossy => String::from_str("Lossy"),
            CompressionMode::Auto => String::from_str("Auto"),
        }
    }
}

/// What happens to an input file after its successful conversion.
#[derive(Debug, Clone, Copy, PartialEq, Eq, Structural)]
pub enum ReplaceInputMode {
    /// Keep input files (default).
    Off,
    /// Move input files to the recycle bin.
    Recycle,
    /// Permanently delete input files.
    Delete,
}

/// Report output formats.
#[derive(Debug, Clone, Copy, PartialEq, Eq, Structural)]
pub enum ReportFormat {
    Json,
    Csv,
    Html,
}

/// The configuration snapshot of one run. Created once, read-only
/// thereafter.
#[derive(Debug, Clone)]
pub struct ConversionOptions {
    /// The input root's directory components.
    pub input_dir: Vec<String>,
    /// The output root's components, or `None` to derive it from the input
    /// root.
    pub output_dir: Option<Vec<String>>,
    /// Lossy quality, 0 to 100.
    pub quality: u8,
    pub mode: CompressionMode,
    /// Worker count; `None` leaves it to the machine's processor count.
    pub threads: Option<usize>,
    /// Accepted lowercase extensions.
    pub formats: Vec<String>,
    pub overwrite: bool,
    pub preserve_structure: bool,
    /// Upper size bound in megabytes, if any.
    pub max_size: Option<u64>,
    /// Lower size bound in kilobytes.
    pub min_size: u64,
    /// Whether the scan validates each candidate's leading bytes against
    /// its extension's magic signature.
    pub prescan: bool,
    pub replace_input: ReplaceInputMode,
    /// Whether files already in the target codec are re-encoded.
    pub reencode_webp: bool,
    /// Report intended actions and size estimates without touching any
    /// file.
    pub dry_run: bool,
    pub generate_report: bool,
    pub report_format: ReportFormat,
}

/// The extensions accepted when none are configured.
pub open spec fn spec_default_formats() -> Seq<Seq<char>> {
    seq!["jpg"@, "jpeg"@, "png"@, "gif"@, "bmp"@, "tiff"@, "webp"@]
}

/// The name of the output directory derived under the input root when none
/// is configured.
pub open spec fn spec_default_output_subdir() -> Seq<char> {
    "webp_output"@
}

/// All option fields other than the input directory hold their defaults.
pub open spec fn spec_default_fields(o: ConversionOptions) -> bool {
    &&& o.output_dir is None
    &&& o.quality == 80u8
    &&& o.mode is Lossless
    &&& o.threads is None
    &&& names_of(o.formats@) =~= spec_default_formats()
    &&& !o.overwrite
    &&& o.preserve_structure
    &&& o.max_size is None
    &&& o.min_size == 1u64
    &&& o.prescan
    &&& o.replace_input is Off
    &&& !o.reencode_webp
    &&& !o.dry_run
    &&& !o.generate_report
    &&& o.report_format is Json
}

fn default_format_list() -> (r: Vec<String>)
    ensures
        names_of(r@) =~= spec_default_formats(),
{
    let mut r: Vec<String> = Vec::new();
    r.push(String::from_str("jpg"));
    r.push(String::from_str("jpeg"));
    r.push(String::from_str("png"));
    r.push(String::from_str("gif"));
    r.push(String::from_str("bmp"));
    r.push(String::from_str("tiff"));
    r.push(String::from_str("webp"));
    r
}

impl Default for ConversionOptions {
    /// The default options: an empty input root and every other field at
    /// its default.
    fn default() -> (r: Self)
        ensures
            r.input_dir@.len() == 0,
            spec_default_fields(r),
    {
        ConversionOptions {
            input_dir: Vec::new(),
            output_dir: None,
            quality: 80,
            mode: CompressionMode::Lossless,
            threads: None,
            formats: default_format_list(),
            overwrite: false,
            preserve_structure: true,
            max_size: None,
            min_size: 1,
            prescan: true,
            replace_input: ReplaceInputMode::Off,
            reencode_webp: false,
            dry_run: false,
            generate_report: false,
            report_format: ReportFormat::Json,
        }
    }
}

impl ConversionOptions {
    /// Options for converting the tree under `input_dir`, everything else
    /// at its default.
    pub fn new(input_dir: Vec<String>) -> (r: Self)
        ensures
            r.input_dir == input_dir,
            spec_default_fields(r),
    {
        let mut r = ConversionOptions::default();
        r.input_dir = input_dir;
        r
    }

    /// Set the lossy quality.
    pub fn with_quality(self, quality: u8) -> (r: Self)
        ensures
            r == (ConversionOptions { quality, ..self }),
    {
        ConversionOptions { quality, ..self }
    }

    /// Set the compression mode.
    pub fn with_mode(self, mode: CompressionMode) -> (r: Self)
        ensures
            r == (ConversionOptions { mode, ..self }),
    {
        ConversionOptions { mode, ..self }
    }

    /// Set an explicit output root.
    pub fn with_output_dir(self, output_dir: Vec<String>) -> (r: Self)
        ensures
            r == (ConversionOptions { output_dir: Some(output_dir), ..self }),
    {
        ConversionOptions { output_dir: Some(output_dir), ..self }
    }

    /// Set an explicit worker count.
    pub fn with_threads(self, threads: usize) -> (r: Self)
        ensures
            r == (ConversionOptions { threads: Some(threads), ..self }),
    {
        ConversionOptions { threads: Some(threads), ..self }
    }

    /// Enable or disable dry-run mode.
    pub fn with_dry_run(self, dry_run: bool) -> (r: Self)
        ensures
            r == (ConversionOptions { dry_run, ..self }),
    {
        ConversionOptions { dry_run, ..self }
    }

    /// Enable or disable overwriting of existing destinations.
    pub fn with_overwrite(self, overwrite: bool) -> (r: Self)
        ensures
            r == (ConversionOptions { overwrite, ..self }),
    {
        ConversionOptions { overwrite, ..self }
    }

    /// Enable or disable mirroring of the input tree's structure.
    pub fn with_preserve_structure(self, preserve_structure: bool) -> (r: Self)
        ensures
            r == (ConversionOptions { preserve_structure, ..self }),
    {
        ConversionOptions { preserve_structure, ..self }
    }

    /// Set the minimum file size in kilobytes.
    pub fn with_min_size_kb(self, min_size: u64) -> (r: Self)
        ensures
            r == (ConversionOptions { min_size, ..self }),
    {
        ConversionOptions { min_size, ..self }
    }

    /// Set the maximum file size in megabytes.
    pub fn with_max_size_mb(self, max_size: u64) -> (r: Self)
        ensures
            r == (ConversionOptions { max_size: Some(max_size), ..self }),
    {
        ConversionOptions { max_size: Some(max_size), ..self }
    }

    /// Enable or disable header validation during the scan.
    pub fn with_prescan(self, prescan: bool) -> (r: Self)
        ensures
            r == (ConversionOptions { prescan, ..self }),
    {
        ConversionOptions { prescan, ..self }
    }

    /// Enable or disable re-encoding of files already in the target codec.
    pub fn with_reencode_webp(self, reencode_webp: bool) -> (r: Self)
        ensures
            r == (ConversionOptions { reencode_webp, ..self }),
    {
        ConversionOptions { reencode_webp, ..self }
    }

    /// Set what happens to input files after successful conversion.
    pub fn with_replace_input_mode(self, replace_input: ReplaceInputMode) -> (r: Self)
        ensures
            r == (ConversionOptions { replace_input, ..self }),
    {
        ConversionOptions { replace_input, ..self }
    }

    /// Set the accepted lowercase extensions.
    pub fn with_supported_formats(self, formats: Vec<String>) -> (r: Self)
        ensures
            r == (ConversionOptions { formats, ..self }),
    {
        ConversionOptions { formats, ..self }
    }

    /// The components of the effective output root: the configured one,
    /// or a default subdirectory of the input root.
    pub open spec fn spec_effective_output_root(&self) -> Seq<Seq<char>> {
        match self.output_dir {
            Some(d) => names_of(d@),
            None => names_of(self.input_dir@).push(spec_default_output_subdir()),
        }
    }

    /// The effective worker count: the configured one, or the machine's
    /// processor count, which the caller reads and passes in.
    pub fn get_thread_count(&self, machine_threads: usize) -> (r: usize)
        ensures
            r == match self.threads {
                Some(t) => t,
                None => machine_threads,
            },
    {
        match self.threads {
            Some(t) => t,
            None => machine_threads,
        }
    }

    /// The effective output root: the configured one, or a default
    /// subdirectory of the input root.
    pub fn get_output_dir(&self) -> (r: Vec<String>)
        ensures
            names_of(r@) == self.spec_effective_output_root(),
    {
        match &self.output_dir {
            Some(d) => copy_components(d),
            None => {
                let mut r = copy_components(&self.input_dir);
                r.push(String::from_str("webp_output"));
                proof {
                    assert(names_of(r@) =~= self.spec_effective_output_root());
                }
                r
            },
        }
    }
}

/// Copy a list of path components.
pub(crate) fn copy_components(v: &Vec<String>) -> (r: Vec<String>)
    ensures
        r@ =~= v@,
{
    let mut r: Vec<String> = Vec::new();
    let mut i: usize = 0;
    while i < v.len()
        invariant
            0 <= i <= v.len(),
            r@ =~= v@.take(i as int),
        decreases v.len() - i,
    {
        r.push(v[i].clone());
        i = i + 1;
    }
    r
}

/// A configuration file's contents: every section optional.
#[derive(Debug, Clone)]
pub struct Config {
    pub general: Option<GeneralConfig>,
    pub compression: Option<CompressionConfig>,
    pub filtering: Option<FilteringConfig>,
    pub output: Option<OutputConfig>,
    /// Named predefined profiles.
    pub profiles: Option<Vec<(String, ProfileConfig)>>,
}

/// A predefined settings profile.
#[derive(Debug, Clone)]
pub struct ProfileConfig {
    pub description: Option<String>,
    pub quality: Option<u8>,
    pub mode: Option<String>,
    pub max_size: Option<u64>,
    pub preserve_structure: Option<bool>,
    pub formats: Option<Vec<String>>,
    pub threads: Option<usize>,
}

/// General configuration options.
#[derive(Debug, Clone)]
pub struct GeneralConfig {
    pub input_dir: Option<String>,
    pub output_dir: Option<String>,
    pub preserve_structure: Option<bool>,
    pub overwrite: Option<bool>,
    pub threads: Option<usize>,
    pub prescan: Option<bool>,
    pub replace_input: Option<String>,
    pub reencode_webp: Option<bool>,
    pub dry_run: Option<bool>,
}

/// Compression-related configuration.
#[derive(Debug, Clone)]
pub struct CompressionConfig {
    pub quality: Option<u8>,
    pub mode: Option<String>,
}

/// File filtering configuration.
#[derive(Debug, Clone)]
pub struct FilteringConfig {
    pub formats: Option<Vec<String>>,
    pub min_size: Option<u64>,
    pub max_size: Option<u64>,
}

/// Output and reporting configuration.
#[derive(Debug, Clone)]
pub struct OutputConfig {
    pub verbose: Option<bool>,
    pub quiet: Option<bool>,
    pub generate_report: Option<bool>,
    pub report_format: Option<String>,
}

} // verus!
