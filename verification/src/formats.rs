//! Image formats recognised by extension, and validation of a file's leading
//! bytes against the magic signature its extension claims.

use vstd::prelude::*;

verus! {

/// The raster formats the converter recognises. `Jpg` and `Jpeg` name the
/// same encoding reached through two customary extensions; statistics are
/// kept per extension, so they stay distinct here.
#[derive(Clone, Copy, PartialEq, Eq, Structural, Debug)]
pub enum ImageFormat {
    Jpg,
    Jpeg,
    Png,
    Gif,
    Bmp,
    Tiff,
    Webp,
}

/// Why a file failed image validation.
#[derive(Debug, Clone, PartialEq)]
pub enum ImageValidationError {
    InvalidExtension,
    FileNotFound,
    IoError(String),
    InvalidHeader,
    FileTooSmall,
}

impl ImageValidationError {
    /// A short human-readable description of the error.
    pub fn message(&self) -> (r: String)
        ensures
            r@ == self.spec_message(),
    {
        match self {
            ImageValidationError::InvalidExtension => String::from_str("Invalid file extension"),
            ImageValidationError::FileNotFound => String::from_str("File not found"),
            ImageValidationError::IoError(e) => String::from_str("IO error: ").concat(e.as_str()),
            ImageValidationError::InvalidHeader => String::from_str("Invalid image header"),
            ImageValidationError::FileTooSmall => String::from_str(
                "File too small to be a valid image",
            ),
        }
    }

    pub open spec fn spec_message(&self) -> Seq<char> {
        match self {
            ImageValidationError::InvalidExtension => "Invalid file extension"@,
            ImageValidationError::FileNotFound => "File not found"@,
            ImageValidationError::IoError(e) => "IO error: "@ + e@,
            ImageValidationError::InvalidHeader => "Invalid image header"@,
            ImageValidationError::FileTooSmall => "File too small to be a valid image"@,
        }
    }
}

/// Which format a lowercase file extension names, if any.
pub open spec fn spec_parse_format(ext: Seq<char>) -> Option<ImageFormat> {
    if ext == "jpg"@ {
        Some(ImageFormat::Jpg)
    } else if ext == "jpeg"@ {
        Some(ImageFormat::Jpeg)
    } else if ext == "png"@ {
        Some(ImageFormat::Png)
    } else if ext == "gif"@ {
        Some(ImageFormat::Gif)
    } else if ext == "bmp"@ {
        Some(ImageFormat::Bmp)
    } else if ext == "tiff"@ {
        Some(ImageFormat::Tiff)
    } else if ext == "webp"@ {
        Some(ImageFormat::Webp)
    } else {
        None
    }
}

/// Map a lowercase extension to the format it names.
pub fn parse_format(ext: &String) -> (r: Option<ImageFormat>)
    ensures
        r == spec_parse_format(ext@),
{
    if *ext == String::from_str("jpg") {
        Some(ImageFormat::Jpg)
    } else if *ext == String::from_str("jpeg") {
        Some(ImageFormat::Jpeg)
    } else if *ext == String::from_str("png") {
        Some(ImageFormat::Png)
    } else if *ext == String::from_str("gif") {
        Some(ImageFormat::Gif)
    } else if *ext == String::from_str("bmp") {
        Some(ImageFormat::Bmp)
    } else if *ext == String::from_str("tiff") {
        Some(ImageFormat::Tiff)
    } else if *ext == String::from_str("webp") {
        Some(ImageFormat::Webp)
    } else {
        None
    }
}

/// The seven extension literals name seven distinct formats.
pub proof fn lemma_format_extensions()
    ensures
        spec_parse_format("jpg"@) == Some(ImageFormat::Jpg),
        spec_parse_format("jpeg"@) == Some(ImageFormat::Jpeg),
        spec_parse_format("png"@) == Some(ImageFormat::Png),
        spec_parse_format("gif"@) == Some(ImageFormat::Gif),
        spec_parse_format("bmp"@) == Some(ImageFormat::Bmp),
        spec_parse_format("tiff"@) == Some(ImageFormat::Tiff),
        spec_parse_format("webp"@) == Some(ImageFormat::Webp),
{
    reveal_strlit("jpg");
    reveal_strlit("jpeg");
    reveal_strlit("png");
    reveal_strlit("gif");
    reveal_strlit("bmp");
    reveal_strlit("tiff");
    reveal_strlit("webp");
    assert("jpg"@.len() == 3 && "jpeg"@.len() == 4 && "png"@.len() == 3 && "gif"@.len() == 3
        && "bmp"@.len() == 3 && "tiff"@.len() == 4 && "webp"@.len() == 4);
    assert("jpg"@[0] == 'j' && "jpeg"@[0] == 'j' && "png"@[0] == 'p' && "gif"@[0] == 'g'
        && "bmp"@[0] == 'b' && "tiff"@[0] == 't' && "webp"@[0] == 'w');
}

/// The customary extension of each format, lowercase.
pub fn format_extension(fmt: ImageFormat) -> (r: String)
    ensures
        spec_parse_format(r@) == Some(fmt),
{
    proof {
        lemma_format_extensions();
    }
    match fmt {
        ImageFormat::Jpg => String::from_str("jpg"),
        ImageFormat::Jpeg => String::from_str("jpeg"),
        ImageFormat::Png => String::from_str("png"),
        ImageFormat::Gif => String::from_str("gif"),
        ImageFormat::Bmp => String::from_str("bmp"),
        ImageFormat::Tiff => String::from_str("tiff"),
        ImageFormat::Webp => String::from_str("webp"),
    }
}

/// How many leading bytes the magic check of a format reads.
pub open spec fn spec_required_header_len(fmt: ImageFormat) -> int {
    match fmt {
        ImageFormat::Webp => 12,
        ImageFormat::Png => 8,
        ImageFormat::Gif => 6,
        ImageFormat::Tiff => 4,
        _ => 2,
    }
}

/// The number of leading bytes needed to check a format's magic signature.
pub fn required_header_len(fmt: ImageFormat) -> (r: usize)
    ensures
        r == spec_required_header_len(fmt),
{
    match fmt {
        ImageFormat::Webp => 12,
        ImageFormat::Png => 8,
        ImageFormat::Gif => 6,
        ImageFormat::Tiff => 4,
        _ => 2,
    }
}

/// Whether the first bytes of `hdr` carry the magic signature of `fmt`.
/// Meaningful only when `hdr` holds at least `spec_required_header_len(fmt)`
/// bytes.
pub open spec fn spec_magic_matches(fmt: ImageFormat, hdr: Seq<u8>) -> bool {
    match fmt {
        ImageFormat::Jpg => hdr[0] == 0xffu8 && hdr[1] == 0xd8u8,
        ImageFormat::Jpeg => hdr[0] == 0xffu8 && hdr[1] == 0xd8u8,
        ImageFormat::Png => hdr[0] == 0x89u8 && hdr[1] == 0x50u8 && hdr[2] == 0x4eu8 && hdr[3]
            == 0x47u8 && hdr[4] == 0x0du8 && hdr[5] == 0x0au8 && hdr[6] == 0x1au8 && hdr[7]
            == 0x0au8,
        ImageFormat::Gif => hdr[0] == 0x47u8 && hdr[1] == 0x49u8 && hdr[2] == 0x46u8 && hdr[3]
            == 0x38u8 && (hdr[4] == 0x37u8 || hdr[4] == 0x39u8) && hdr[5] == 0x61u8,
        ImageFormat::Bmp => hdr[0] == 0x42u8 && hdr[1] == 0x4du8,
        ImageFormat::Tiff => (hdr[0] == 0x49u8 && hdr[1] == 0x49u8 && hdr[2] == 0x2au8 && hdr[3]
            == 0x00u8) || (hdr[0] == 0x4du8 && hdr[1] == 0x4du8 && hdr[2] == 0x00u8 && hdr[3]
            == 0x2au8),
        ImageFormat::Webp => hdr[0] == 0x52u8 && hdr[1] == 0x49u8 && hdr[2] == 0x46u8 && hdr[3]
            == 0x46u8 && hdr[8] == 0x57u8 && hdr[9] == 0x45u8 && hdr[10] == 0x42u8 && hdr[11]
            == 0x50u8,
    }
}

/// Check a format's magic signature against the leading bytes of a file.
pub fn magic_matches(fmt: ImageFormat, hdr: &Vec<u8>) -> (r: bool)
    requires
        hdr@.len() >= spec_required_header_len(fmt),
    ensures
        r == spec_magic_matches(fmt, hdr@),
{
    match fmt {
        ImageFormat::Jpg => hdr[0] == 0xff && hdr[1] == 0xd8,
        ImageFormat::Jpeg => hdr[0] == 0xff && hdr[1] == 0xd8,
        ImageFormat::Png => hdr[0] == 0x89 && hdr[1] == 0x50 && hdr[2] == 0x4e && hdr[3] == 0x47
            && hdr[4] == 0x0d && hdr[5] == 0x0a && hdr[6] == 0x1a && hdr[7] == 0x0a,
        ImageFormat::Gif => hdr[0] == 0x47 && hdr[1] == 0x49 && hdr[2] == 0x46 && hdr[3] == 0x38
            && (hdr[4] == 0x37 || hdr[4] == 0x39) && hdr[5] == 0x61,
        ImageFormat::Bmp => hdr[0] == 0x42 && hdr[1] == 0x4d,
        ImageFormat::Tiff => (hdr[0] == 0x49 && hdr[1] == 0x49 && hdr[2] == 0x2a && hdr[3] == 0x00)
            || (hdr[0] == 0x4d && hdr[1] == 0x4d && hdr[2] == 0x00 && hdr[3] == 0x2a),
        ImageFormat::Webp => hdr[0] == 0x52 && hdr[1] == 0x49 && hdr[2] == 0x46 && hdr[3] == 0x46
            && hdr[8] == 0x57 && hdr[9] == 0x45 && hdr[10] == 0x42 && hdr[11] == 0x50,
    }
}

/// What validating a file's leading bytes against its lowercase extension
/// yields. An empty extension is rejected; an extension that names no known
/// format is accepted by default, since callers have already filtered on
/// their accepted extension set; a known format must have enough leading
/// bytes and a matching magic signature.
pub open spec fn spec_validate_image_file(ext: Seq<char>, hdr: Seq<u8>) -> Result<
    (),
    ImageValidationError,
> {
    if ext.len() == 0 {
        Err(ImageValidationError::InvalidExtension)
    } else {
        match spec_parse_format(ext) {
            None => Ok(()),
            Some(fmt) => {
                if hdr.len() < spec_required_header_len(fmt) {
                    Err(ImageValidationError::FileTooSmall)
                } else if !spec_magic_matches(fmt, hdr) {
                    Err(ImageValidationError::InvalidHeader)
                } else {
                    Ok(())
                }
            },
        }
    }
}

/// Validate a file from its lowercase extension and leading bytes, with a
/// detailed error. `hdr` holds as many of the file's first bytes as exist,
/// at least the twelve longest any signature needs when the file is that
/// long.
pub fn validate_image_file(ext_lower: &String, hdr: &Vec<u8>) -> (r: Result<
    (),
    ImageValidationError,
>)
    ensures
        r == spec_validate_image_file(ext_lower@, hdr@),
{
    if ext_lower.as_str().unicode_len() == 0 {
        return Err(ImageValidationError::InvalidExtension);
    }
    match parse_format(ext_lower) {
        None => Ok(()),
        Some(fmt) => {
            let need = required_header_len(fmt);
            if hdr.len() < need {
                Err(ImageValidationError::FileTooSmall)
            } else if !magic_matches(fmt, hdr) {
                Err(ImageValidationError::InvalidHeader)
            } else {
                Ok(())
            }
        },
    }
}

/// Whether a file's leading bytes are consistent with its lowercase
/// extension.
pub fn is_valid_image_file(ext_lower: &String, hdr: &Vec<u8>) -> (r: bool)
    ensures
        r == spec_validate_image_file(ext_lower@, hdr@).is_ok(),
{
    validate_image_file(ext_lower, hdr).is_ok()
}

} // verus!
