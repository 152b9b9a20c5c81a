//! The image converter: dimension policy, quality policy, the resolved
//! encoding mode, and the full bytes-to-bytes conversion pipeline around
//! the outside codec. Reading the source file and writing the encoded
//! bytes happen outside the library.

use vstd::prelude::*;
use crate::bitmap::Bitmap;
use crate::bitmap::BitmapView;
use crate::codec::decode_image;
use crate::codec::decoded_rgba_of;
use crate::codec::encode_lossless_webp;
use crate::codec::encode_lossy_webp;
use crate::codec::lossless_webp_of;
use crate::codec::lossy_webp_of;
use crate::codec::resize_bitmap;
use crate::codec::resized_of;
use crate::formats::ImageFormat;
use crate::options::CompressionMode;
use crate::selector::should_use_lossless;
use crate::selector::spec_should_use_lossless;
use crate::utils::spec_decimal;
use crate::utils::u64_to_string;

verus! {

/// The target codec's per-axis dimension limit.
pub open spec fn spec_max_dimension() -> int {
    16383
}

/// Why a conversion failed before any output was produced.
#[derive(Debug, Clone, PartialEq)]
pub enum ConvertError {
    /// The source decoded to an image with a zero dimension.
    ZeroDimensions { width: u32, height: u32 },
    /// The source could not be decoded; the cause in words.
    DecodeFailed(String),
    /// The codec reported an encoding error; the cause in words.
    EncodeFailed(String),
}

impl ConvertError {
    /// A short human-readable description of the error.
    pub fn message(&self) -> (r: String)
        ensures
            self matches ConvertError::ZeroDimensions { width, height } ==> r@
                == "Invalid image dimensions: "@ + spec_decimal(width as int) + "x"@ + spec_decimal(
                height as int,
            ) + " (zero dimensions)"@,
            self matches ConvertError::DecodeFailed(cause) ==> r@ == "Failed to read image: "@
                + cause@,
            self matches ConvertError::EncodeFailed(cause) ==> r@ == "Failed to encode image: "@
                + cause@,
    {
        match self {
            ConvertError::ZeroDimensions { width, height } => {
                let r = String::from_str("Invalid image dimensions: ").concat(
                    u64_to_string(*width as u64).as_str(),
                ).concat("x").concat(u64_to_string(*height as u64).as_str()).concat(
                    " (zero dimensions)",
                );
                r
            },
            ConvertError::DecodeFailed(cause) => String::from_str("Failed to read image: ").concat(
                cause.as_str(),
            ),
            ConvertError::EncodeFailed(cause) => String::from_str(
                "Failed to encode image: ",
            ).concat(cause.as_str()),
        }
    }
}

/// The dimensions a decoded image is encoded at: unchanged when both axes
/// respect the codec's limit; otherwise scaled down proportionally to the
/// limit, each axis kept at one pixel or more. A zero axis admits no
/// encoding at all.
pub open spec fn spec_planned_dimensions(width: int, height: int) -> Option<(int, int)> {
    if width == 0 || height == 0 {
        None
    } else if width <= spec_max_dimension() && height <= spec_max_dimension() {
        Some((width, height))
    } else {
        let longest = if width >= height {
            width
        } else {
            height
        };
        let w = width * spec_max_dimension() / longest;
        let h = height * spec_max_dimension() / longest;
        Some(((if w >= 1 { w } else { 1 }), (if h >= 1 { h } else { 1 })))
    }
}

/// The planned dimensions always respect the codec's limits.
pub proof fn lemma_planned_dimensions_bounds(width: int, height: int)
    requires
        0 <= width,
        0 <= height,
    ensures
        spec_planned_dimensions(width, height) matches Some(d) ==> 1 <= d.0
            <= spec_max_dimension() && 1 <= d.1 <= spec_max_dimension(),
{
    if width != 0 && height != 0 && !(width <= spec_max_dimension() && height
        <= spec_max_dimension()) {
        let longest = if width >= height {
            width
        } else {
            height
        };
        assert(1 <= width * 16383 / longest <= 16383 || width * 16383 / longest < 1) by (
        nonlinear_arith)
            requires
                1 <= width <= longest,
        ;
        assert(width * 16383 / longest <= 16383) by (nonlinear_arith)
            requires
                1 <= width <= longest,
        ;
        assert(height * 16383 / longest <= 16383) by (nonlinear_arith)
            requires
                1 <= height <= longest,
        ;
    }
}

/// Decide the dimensions to encode at, or reject a zero dimension.
pub fn plan_dimensions(width: u32, height: u32) -> (r: Result<(u32, u32), ConvertError>)
    ensures
        r is Ok <==> spec_planned_dimensions(width as int, height as int) is Some,
        r matches Ok(d) ==> Some(((d.0 as int, d.1 as int))) == spec_planned_dimensions(
            width as int,
            height as int,
        ),
        r matches Err(e) ==> e == (ConvertError::ZeroDimensions { width, height }),
{
    if width == 0 || height == 0 {
        return Err(ConvertError::ZeroDimensions { width, height });
    }
    if width <= 16383 && height <= 16383 {
        return Ok((width, height));
    }
    let longest: u64 = if width >= height {
        width as u64
    } else {
        height as u64
    };
    proof {
        assert((width as int) * 16383 <= 0xffff_ffff * 16383 && (height as int) * 16383
            <= 0xffff_ffff * 16383) by (nonlinear_arith)
            requires
                width <= 0xffff_ffffu32,
                height <= 0xffff_ffffu32,
        ;
    }
    let w64: u64 = (width as u64) * 16383 / longest;
    let h64: u64 = (height as u64) * 16383 / longest;
    proof {
        assert((width as int) * 16383 / (longest as int) <= 16383) by (nonlinear_arith)
            requires
                1 <= width <= longest,
        ;
        assert((height as int) * 16383 / (longest as int) <= 16383) by (nonlinear_arith)
            requires
                1 <= height <= longest,
        ;
    }
    let w: u32 = if w64 >= 1 {
        w64 as u32
    } else {
        1
    };
    let h: u32 = if h64 >= 1 {
        h64 as u32
    } else {
        1
    };
    Ok((w, h))
}

/// The quality actually used for lossy encoding: the fast profile caps it
/// to trade a little size for speed.
pub open spec fn spec_effective_quality(quality: u8, ultra_fast: bool) -> u8 {
    if ultra_fast && quality > 85 {
        85u8
    } else {
        quality
    }
}

/// Cap the configured quality under the fast profile.
pub fn effective_quality(quality: u8, ultra_fast: bool) -> (r: u8)
    ensures
        r == spec_effective_quality(quality, ultra_fast),
{
    if ultra_fast && quality > 85 {
        85
    } else {
        quality
    }
}

/// The byte count a dry run reports in place of a real encode: six tenths
/// of the source size, a deterministic function of that size alone.
pub open spec fn spec_dry_run_estimate(original: u64) -> u64 {
    (original * 6 / 10) as u64
}

/// Estimate the encoded size of a dry-run item from its source size.
pub fn dry_run_estimate(original: u64) -> (r: u64)
    ensures
        r == spec_dry_run_estimate(original),
{
    proof {
        assert(original * 6 / 10 <= u64::MAX) by (nonlinear_arith)
            requires
                original <= u64::MAX,
        ;
    }
    let r: u128 = (original as u128) * 6 / 10;
    r as u64
}

/// The converter's per-run settings.
#[derive(Debug, Clone)]
pub struct ImageConverter {
    /// Lossy quality, 0 to 100.
    pub quality: u8,
    pub mode: CompressionMode,
    /// The fast profile: caps lossy quality.
    pub ultra_fast: bool,
    /// Report without encoding or writing.
    pub dry_run: bool,
}

/// Everything a finished in-memory conversion hands back: the encoded
/// bytes, the mode they were encoded under, and the dimensions before and
/// after the dimension policy.
#[derive(Debug)]
pub struct EncodedImage {
    pub data: Vec<u8>,
    pub used_lossless: bool,
    pub decoded_width: u32,
    pub decoded_height: u32,
    pub encoded_width: u32,
    pub encoded_height: u32,
}

/// What a dry run learns about an item without converting it.
#[derive(Debug, Clone, PartialEq)]
pub struct ImageAnalysis {
    pub width: u32,
    pub height: u32,
    /// The mode a real conversion would use.
    pub would_use_lossless: bool,
}

/// The bitmap actually encoded: the decoded image, downscaled first when
/// it exceeds the codec's limits.
pub open spec fn spec_encoded_bitmap(b: BitmapView) -> BitmapView {
    if b.width <= spec_max_dimension() && b.height <= spec_max_dimension() {
        b
    } else {
        let d = spec_planned_dimensions(b.width as int, b.height as int)->0;
        resized_of(b, d.0, d.1)
    }
}

/// Whether a conversion under these settings encodes losslessly: the
/// configured mode, with auto mode deferring to the content heuristic on
/// the bitmap as encoded.
pub open spec fn spec_uses_lossless(
    mode: CompressionMode,
    b: BitmapView,
    fmt: Option<ImageFormat>,
) -> bool {
    match mode {
        CompressionMode::Lossless => true,
        CompressionMode::Lossy => false,
        CompressionMode::Auto => spec_should_use_lossless(b, fmt),
    }
}

/// What the encode a conversion under these settings performs yields on
/// this bitmap: the named outcome of the resolved mode's codec call.
pub open spec fn spec_encode_outcome(
    mode: CompressionMode,
    b: BitmapView,
    fmt: Option<ImageFormat>,
    quality: u8,
    ultra_fast: bool,
) -> Result<Seq<u8>, Seq<char>> {
    if spec_uses_lossless(mode, b, fmt) {
        lossless_webp_of(b)
    } else {
        lossy_webp_of(b, spec_effective_quality(quality, ultra_fast) as int)
    }
}

impl ImageConverter {
    /// A converter with the fast profile on.
    pub fn new_with_dry_run(quality: u8, mode: &CompressionMode, dry_run: bool) -> (r: Self)
        ensures
            r == (ImageConverter { quality, mode: *mode, ultra_fast: true, dry_run }),
    {
        ImageConverter { quality, mode: *mode, ultra_fast: true, dry_run }
    }

    /// Convert one image, held in memory, to the target codec: decode,
    /// apply the dimension policy, resolve the mode, encode. Success is
    /// owed exactly when the resolved mode's codec call succeeds on the
    /// bitmap as encoded; the encoded bytes, and otherwise the error's
    /// words, are pinned through the codec calls' named outcomes to the
    /// source bytes and the settings alone.
    pub fn convert_image_bytes(&self, bytes: &Vec<u8>, fmt: Option<ImageFormat>) -> (r: Result<
        EncodedImage,
        ConvertError,
    >)
        requires
            self.quality <= 100,
        ensures
            decoded_rgba_of(bytes@) is None ==> (r matches Err(e) && e is DecodeFailed),
            r matches Err(e) ==> (e is DecodeFailed <==> decoded_rgba_of(bytes@) is None),
            decoded_rgba_of(bytes@) matches Some(b) ==> if b.width == 0 || b.height == 0 {
                r == Err::<EncodedImage, ConvertError>(
                    ConvertError::ZeroDimensions {
                        width: b.width as u32,
                        height: b.height as u32,
                    },
                )
            } else {
                let enc = spec_encoded_bitmap(b);
                let outcome = spec_encode_outcome(self.mode, enc, fmt, self.quality, self.ultra_fast);
                &&& (r is Ok <==> outcome is Ok)
                &&& (r matches Ok(out) ==> {
                    &&& out.decoded_width == b.width
                    &&& out.decoded_height == b.height
                    &&& out.encoded_width == enc.width
                    &&& out.encoded_height == enc.height
                    &&& out.used_lossless == spec_uses_lossless(self.mode, enc, fmt)
                    &&& Ok::<Seq<u8>, Seq<char>>(out.data@) == outcome
                })
                &&& (r matches Err(e) ==> (e matches ConvertError::EncodeFailed(msg)
                    && Err::<Seq<u8>, Seq<char>>(msg@) == outcome))
            },
    {
        let decoded = match decode_image(bytes) {
            Ok(b) => b,
            Err(cause) => {
                return Err(ConvertError::DecodeFailed(cause));
            },
        };
        let ghost bview = decoded@;
        let decoded_width = decoded.width;
        let decoded_height = decoded.height;
        let planned = match plan_dimensions(decoded.width, decoded.height) {
            Ok(d) => d,
            Err(e) => {
                return Err(e);
            },
        };
        let processed: Bitmap = if decoded.width <= 16383 && decoded.height <= 16383 {
            decoded
        } else {
            proof {
                lemma_planned_dimensions_bounds(bview.width as int, bview.height as int);
            }
            resize_bitmap(&decoded, planned.0, planned.1)
        };
        proof {
            assert(processed@ == spec_encoded_bitmap(bview));
            assert(processed@.wf());
            assert(1 <= processed.width <= 16383 && 1 <= processed.height <= 16383) by {
                lemma_planned_dimensions_bounds(bview.width as int, bview.height as int);
            }
        }
        let used_lossless = match self.mode {
            CompressionMode::Lossless => true,
            CompressionMode::Lossy => false,
            CompressionMode::Auto => should_use_lossless(&processed, fmt),
        };
        let data = if used_lossless {
            match encode_lossless_webp(&processed) {
                Ok(d) => d,
                Err(cause) => {
                    return Err(ConvertError::EncodeFailed(cause));
                },
            }
        } else {
            match encode_lossy_webp(&processed, effective_quality(self.quality, self.ultra_fast)) {
                Ok(d) => d,
                Err(cause) => {
                    return Err(ConvertError::EncodeFailed(cause));
                },
            }
        };
        Ok(
            EncodedImage {
                data,
                used_lossless,
                decoded_width,
                decoded_height,
                encoded_width: processed.width,
                encoded_height: processed.height,
            },
        )
    }

    /// Analyse one image for a dry run: its dimensions and the mode a
    /// real conversion would pick, decided on the image as decoded.
    pub fn analyze_image_bytes(&self, bytes: &Vec<u8>, fmt: Option<ImageFormat>) -> (r: Result<
        ImageAnalysis,
        ConvertError,
    >)
        ensures
            r is Err <==> decoded_rgba_of(bytes@) is None,
            decoded_rgba_of(bytes@) matches Some(b) ==> r matches Ok(a) && a.width == b.width
                && a.height == b.height && a.would_use_lossless == spec_uses_lossless(
                self.mode,
                b,
                fmt,
            ),
    {
        let decoded = match decode_image(bytes) {
            Ok(b) => b,
            Err(cause) => {
                return Err(ConvertError::DecodeFailed(cause));
            },
        };
        let would_use_lossless = match self.mode {
            CompressionMode::Lossless => true,
            CompressionMode::Lossy => false,
            CompressionMode::Auto => should_use_lossless(&decoded, fmt),
        };
        Ok(ImageAnalysis { width: decoded.width, height: decoded.height, would_use_lossless })
    }
}

} // verus!
