use webpify::bitmap::{Bitmap, Pixel};
use webpify::formats::ImageFormat;
use webpify::selector::{analyze_color_complexity, should_use_lossless};

fn solid(width: u32, height: u32, p: Pixel) -> Bitmap {
    Bitmap {
        width,
        height,
        pixels: vec![p; (width * height) as usize],
    }
}

fn opaque(r: u8, g: u8, b: u8) -> Pixel {
    Pixel { r, g, b, a: 255 }
}

/// A 300 by 300 image whose sampled grid meets a different colour at every
/// sample point.
fn colourful() -> Bitmap {
    let mut pixels = Vec::with_capacity(300 * 300);
    for y in 0..300u32 {
        for x in 0..300u32 {
            pixels.push(opaque((x / 30) as u8, (y / 30) as u8, 0));
        }
    }
    Bitmap {
        width: 300,
        height: 300,
        pixels,
    }
}

#[test]
fn png_and_gif_sources_always_stay_lossless() {
    let img = colourful();
    assert!(should_use_lossless(&img, Some(ImageFormat::Png)));
    assert!(should_use_lossless(&img, Some(ImageFormat::Gif)));
}

#[test]
fn small_images_stay_lossless() {
    let img = solid(10, 10, opaque(1, 2, 3));
    assert!(should_use_lossless(&img, Some(ImageFormat::Jpg)));
    assert!(should_use_lossless(&img, None));
}

#[test]
fn flat_large_images_stay_lossless() {
    let img = solid(300, 300, opaque(1, 2, 3));
    assert!(should_use_lossless(&img, Some(ImageFormat::Jpg)));
}

#[test]
fn colourful_large_images_go_lossy() {
    let img = colourful();
    assert!(!should_use_lossless(&img, Some(ImageFormat::Jpg)));
    assert!(!should_use_lossless(&img, Some(ImageFormat::Bmp)));
}

#[test]
fn transparency_forces_lossless() {
    let mut img = colourful();
    // Make every sampled pixel translucent.
    for p in img.pixels.iter_mut() {
        p.a = 128;
    }
    assert!(should_use_lossless(&img, Some(ImageFormat::Jpg)));
}

#[test]
fn the_decision_is_deterministic() {
    let img = colourful();
    let first = should_use_lossless(&img, Some(ImageFormat::Jpg));
    for _ in 0..5 {
        assert_eq!(should_use_lossless(&img, Some(ImageFormat::Jpg)), first);
    }
    let flat = solid(300, 300, opaque(9, 9, 9));
    let a = analyze_color_complexity(&flat);
    let b = analyze_color_complexity(&flat);
    assert_eq!(a, b);
}
