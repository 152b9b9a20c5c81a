//! The boundary to the outside image codecs: decoding a byte stream into a
//! bitmap, resampling, and encoding a bitmap as WebP. Each call is a pure
//! computation on values; each is named or bounded so the verified logic
//! around it has something exact to stand on.

use vstd::prelude::*;
use crate::bitmap::Bitmap;
use crate::bitmap::BitmapView;
use crate::bitmap::from_raw_rgba;
use crate::bitmap::to_raw_rgba;

verus! {

/// What decoding a byte stream yields when it holds a readable image:
/// decoding is a pure function of the bytes.
pub uninterp spec fn decoded_rgba_of(bytes: Seq<u8>) -> Option<BitmapView>;

/// Relies on image::load_from_memory, with the decoded image converted to
/// eight-bit RGBA: the result depends on the bytes alone; a decoded bitmap
/// is well-formed, and its pixel buffer existed in memory, so four bytes
/// per pixel fit a machine word.
#[verifier::external_body]
pub fn decode_image(bytes: &Vec<u8>) -> (r: Result<Bitmap, String>)
    ensures
        r is Ok <==> decoded_rgba_of(bytes@) is Some,
        r matches Ok(b) ==> Some(b@) == decoded_rgba_of(bytes@) && b@.wf() && b@.pixels.len() * 4
            <= usize::MAX,
{
    match image::load_from_memory(bytes.as_slice()) {
        Ok(img) => {
            let rgba = img.to_rgba8();
            let w = rgba.width();
            let h = rgba.height();
            Ok(from_raw_rgba(w, h, &rgba.into_raw()))
        },
        Err(e) => Err(format!("{e}")),
    }
}

/// What resampling a bitmap to fit within the given bounds yields: a pure
/// function of the bitmap and the bounds.
pub uninterp spec fn resized_of(b: BitmapView, bound_w: int, bound_h: int) -> BitmapView;

/// Relies on image's DynamicImage::resize with the Lanczos3 filter: the
/// result depends only on the bitmap and the bounds, through resampling
/// arithmetic that follows the platform's floating-point math library; it
/// keeps the aspect ratio, fits within the bounds, and keeps at least one
/// pixel per axis.
#[verifier::external_body]
pub fn resize_bitmap(b: &Bitmap, bound_w: u32, bound_h: u32) -> (r: Bitmap)
    requires
        b@.wf(),
        1 <= b.width,
        1 <= b.height,
        1 <= bound_w <= 16383,
        1 <= bound_h <= 16383,
        b@.pixels.len() * 4 <= usize::MAX,
    ensures
        r@ == resized_of(b@, bound_w as int, bound_h as int),
        r@.wf(),
        1 <= r.width <= bound_w,
        1 <= r.height <= bound_h,
{
    let raw = to_raw_rgba(&b.pixels);
    let img = image::RgbaImage::from_raw(b.width, b.height, raw).unwrap();
    let resized = image::DynamicImage::ImageRgba8(img).resize(
        bound_w,
        bound_h,
        image::imageops::FilterType::Lanczos3,
    );
    let out = resized.to_rgba8();
    let w = out.width();
    let h = out.height();
    from_raw_rgba(w, h, &out.into_raw())
}

/// What encoding a bitmap losslessly yields — the encoded bytes, or the
/// codec's error in words: a pure function of the pixels and dimensions.
pub uninterp spec fn lossless_webp_of(b: BitmapView) -> Result<Seq<u8>, Seq<char>>;

/// Relies on webp's Encoder::encode_simple over raw RGBA data in
/// lossless mode, at the same default effort setting the crate's own
/// lossless entry point uses: whether the codec succeeds, the bytes it
/// then produces, and otherwise the error it reports, all depend on the
/// bitmap alone. The codec takes dimensions only up to its per-axis
/// limit.
#[verifier::external_body]
pub fn encode_lossless_webp(b: &Bitmap) -> (r: Result<Vec<u8>, String>)
    requires
        b@.wf(),
        1 <= b.width <= 16383,
        1 <= b.height <= 16383,
    ensures
        r is Ok <==> lossless_webp_of(b@) is Ok,
        r matches Ok(v) ==> (lossless_webp_of(b@) matches Ok(w) && v@ == w),
        r matches Err(e) ==> (lossless_webp_of(b@) matches Err(m) && e@ == m),
{
    let raw = to_raw_rgba(&b.pixels);
    match webp::Encoder::from_rgba(&raw, b.width, b.height).encode_simple(true, 75u8.into()) {
        Ok(data) => Ok(data.to_vec()),
        Err(e) => Err(format!("{e:?}")),
    }
}

/// What encoding a bitmap at a quality setting yields — the encoded
/// bytes, or the codec's error in words: a pure function of the pixels,
/// dimensions and quality.
pub uninterp spec fn lossy_webp_of(b: BitmapView, quality: int) -> Result<Seq<u8>, Seq<char>>;

/// Relies on webp's Encoder::encode_simple over raw RGBA data in lossy
/// mode: whether the codec succeeds, the bytes it then produces, and
/// otherwise the error it reports — the lossy path can fail, for
/// instance when a frame's first partition outgrows the format's limit —
/// all depend on the bitmap and the quality alone. The codec takes
/// dimensions only up to its per-axis limit and qualities up to one
/// hundred.
#[verifier::external_body]
pub fn encode_lossy_webp(b: &Bitmap, quality: u8) -> (r: Result<Vec<u8>, String>)
    requires
        b@.wf(),
        1 <= b.width <= 16383,
        1 <= b.height <= 16383,
        quality <= 100,
    ensures
        r is Ok <==> lossy_webp_of(b@, quality as int) is Ok,
        r matches Ok(v) ==> (lossy_webp_of(b@, quality as int) matches Ok(w) && v@ == w),
        r matches Err(e) ==> (lossy_webp_of(b@, quality as int) matches Err(m) && e@ == m),
{
    let raw = to_raw_rgba(&b.pixels);
    match webp::Encoder::from_rgba(&raw, b.width, b.height).encode_simple(false, quality.into()) {
        Ok(data) => Ok(data.to_vec()),
        Err(e) => Err(format!("{e:?}")),
    }
}

} // verus!
