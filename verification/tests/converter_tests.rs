use std::io::Cursor;

use webpify::bitmap::{Bitmap, Pixel};
use webpify::codec::{decode_image, encode_lossless_webp, encode_lossy_webp, resize_bitmap};
use webpify::converter::{
    dry_run_estimate, effective_quality, plan_dimensions, ConvertError, ImageConverter,
};
use webpify::engine::WebpifyCore;
use webpify::formats::{validate_image_file, ImageFormat};
use webpify::options::{CompressionMode, ConversionOptions};

fn s(x: &str) -> String {
    x.to_string()
}

/// PNG bytes of a solid-colour image, built through the image crate.
fn png_bytes(width: u32, height: u32, rgba: [u8; 4]) -> Vec<u8> {
    let img = image::RgbaImage::from_pixel(width, height, image::Rgba(rgba));
    let mut buf = Vec::new();
    img.write_to(&mut Cursor::new(&mut buf), image::ImageFormat::Png)
        .unwrap();
    buf
}

#[test]
fn plan_dimensions_keeps_small_images_and_rejects_zero() {
    assert_eq!(plan_dimensions(100, 50), Ok((100, 50)));
    assert_eq!(plan_dimensions(16383, 16383), Ok((16383, 16383)));
    assert!(matches!(
        plan_dimensions(0, 50),
        Err(ConvertError::ZeroDimensions { .. })
    ));
    assert!(matches!(
        plan_dimensions(50, 0),
        Err(ConvertError::ZeroDimensions { .. })
    ));
}

#[test]
fn plan_dimensions_scales_oversized_images_down() {
    let (w, h) = plan_dimensions(32766, 16383).unwrap();
    assert_eq!((w, h), (16383, 8191));
    let (w2, h2) = plan_dimensions(20000, 20000).unwrap();
    assert_eq!((w2, h2), (16383, 16383));
    let (w3, h3) = plan_dimensions(1, 1000000).unwrap();
    assert!(w3 >= 1 && h3 <= 16383);
}

#[test]
fn the_fast_profile_caps_quality() {
    assert_eq!(effective_quality(80, true), 80);
    assert_eq!(effective_quality(95, true), 85);
    assert_eq!(effective_quality(95, false), 95);
}

#[test]
fn the_dry_run_estimate_is_six_tenths_of_the_source() {
    assert_eq!(dry_run_estimate(1000), 600);
    assert_eq!(dry_run_estimate(0), 0);
    assert_eq!(dry_run_estimate(5), 3);
    assert_eq!(dry_run_estimate(1000), dry_run_estimate(1000));
}

#[test]
fn decoding_reads_dimensions_and_pixels() {
    let bytes = png_bytes(2, 3, [10, 20, 30, 255]);
    let b = decode_image(&bytes).unwrap();
    assert_eq!((b.width, b.height), (2, 3));
    assert_eq!(b.pixels.len(), 6);
    assert_eq!(b.pixels[0], Pixel { r: 10, g: 20, b: 30, a: 255 });
}

#[test]
fn undecodable_bytes_are_an_error() {
    assert!(decode_image(&vec![0u8; 16]).is_err());
}

#[test]
fn lossless_encoding_round_trips_exactly() {
    let mut pixels = Vec::new();
    for i in 0..12u8 {
        pixels.push(Pixel { r: i * 3, g: i * 5, b: i * 7, a: 255 });
    }
    let bitmap = Bitmap { width: 4, height: 3, pixels: pixels.clone() };
    let encoded = encode_lossless_webp(&bitmap).unwrap();
    // The output is a well-formed WebP container, not the input handed back.
    assert!(validate_image_file(&s("webp"), &encoded[..12].to_vec()).is_ok());
    let back = image::load_from_memory(&encoded).unwrap().to_rgba8();
    assert_eq!(back.dimensions(), (4, 3));
    for (i, p) in back.pixels().enumerate() {
        assert_eq!(p.0, [pixels[i].r, pixels[i].g, pixels[i].b, pixels[i].a]);
    }
}

#[test]
fn lossy_encoding_yields_a_webp_container() {
    let bitmap = Bitmap {
        width: 8,
        height: 8,
        pixels: vec![Pixel { r: 200, g: 100, b: 50, a: 255 }; 64],
    };
    let encoded = encode_lossy_webp(&bitmap, 80).unwrap();
    assert!(validate_image_file(&s("webp"), &encoded[..12].to_vec()).is_ok());
    let back = image::load_from_memory(&encoded).unwrap();
    assert_eq!((back.width(), back.height()), (8, 8));
}

#[test]
fn resizing_fits_within_the_bounds() {
    let bitmap = Bitmap {
        width: 100,
        height: 50,
        pixels: vec![Pixel { r: 1, g: 2, b: 3, a: 255 }; 5000],
    };
    let small = resize_bitmap(&bitmap, 10, 10);
    assert!(small.width >= 1 && small.width <= 10);
    assert!(small.height >= 1 && small.height <= 10);
    assert_eq!(small.pixels.len() as u64, small.width as u64 * small.height as u64);
}

#[test]
fn converting_bytes_produces_webp_bytes() {
    let bytes = png_bytes(10, 10, [1, 2, 3, 255]);
    let conv = ImageConverter::new_with_dry_run(80, &CompressionMode::Lossless, false);
    let out = conv
        .convert_image_bytes(&bytes, Some(ImageFormat::Png))
        .unwrap();
    assert!(out.used_lossless);
    assert_eq!((out.decoded_width, out.decoded_height), (10, 10));
    assert_eq!((out.encoded_width, out.encoded_height), (10, 10));
    assert!(validate_image_file(&s("webp"), &out.data[..12].to_vec()).is_ok());
}

#[test]
fn converting_garbage_fails_with_a_decode_error() {
    let conv = ImageConverter::new_with_dry_run(80, &CompressionMode::Lossless, false);
    assert!(matches!(
        conv.convert_image_bytes(&vec![9u8; 32], None),
        Err(ConvertError::DecodeFailed(_))
    ));
}

#[test]
fn convert_error_messages_carry_their_cause() {
    assert_eq!(
        ConvertError::ZeroDimensions { width: 0, height: 7 }.message(),
        s("Invalid image dimensions: 0x7 (zero dimensions)")
    );
    assert_eq!(
        ConvertError::DecodeFailed(s("bad magic")).message(),
        s("Failed to read image: bad magic")
    );
    assert_eq!(
        ConvertError::EncodeFailed(s("partition overflow")).message(),
        s("Failed to encode image: partition overflow")
    );
}

#[test]
fn analysis_reports_dimensions_and_the_would_be_mode() {
    let bytes = png_bytes(10, 10, [1, 2, 3, 255]);
    let conv = ImageConverter::new_with_dry_run(80, &CompressionMode::Auto, true);
    let analysis = conv
        .analyze_image_bytes(&bytes, Some(ImageFormat::Png))
        .unwrap();
    assert_eq!((analysis.width, analysis.height), (10, 10));
    assert!(analysis.would_use_lossless);
}

/// A whole small run: one low-complexity PNG under auto mode selects
/// lossless and the report counts one processed file and no failures.
#[test]
fn one_small_png_converts_losslessly_end_to_end() {
    let bytes = png_bytes(10, 10, [5, 6, 7, 255]);
    let options = ConversionOptions::new(vec![s("in")]).with_mode(CompressionMode::Auto);
    let mut core = WebpifyCore::new(options);
    core.begin_run(1, 0);
    let src = webpify::paths::FilePath {
        dirs: vec![s("in")],
        stem: s("tiny"),
        ext: s("png"),
    };
    let plan = core.plan_item(&src).unwrap();
    assert_eq!(plan.format, Some(ImageFormat::Png));
    assert!(!core.should_skip_existing(false));
    core.note_format(plan.ext_lower.clone());
    let conv = ImageConverter::new_with_dry_run(80, &CompressionMode::Auto, false);
    let out = conv.convert_image_bytes(&bytes, plan.format).unwrap();
    assert!(out.used_lossless);
    core.note_success(bytes.len() as u64, out.data.len() as u64, None);
    let report = core.finish_run(100, 1);
    assert_eq!(report.processed_files, 1);
    assert_eq!(report.failed_files, 0);
    assert_eq!(report.total_files, 1);
    assert!(report.errors.is_empty());
}
