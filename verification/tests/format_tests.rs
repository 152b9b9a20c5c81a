use webpify::formats::{
    format_extension, is_valid_image_file, parse_format, required_header_len, validate_image_file,
    ImageFormat, ImageValidationError,
};

fn s(x: &str) -> String {
    x.to_string()
}

#[test]
fn parse_format_recognises_the_seven_extensions() {
    assert_eq!(parse_format(&s("jpg")), Some(ImageFormat::Jpg));
    assert_eq!(parse_format(&s("jpeg")), Some(ImageFormat::Jpeg));
    assert_eq!(parse_format(&s("png")), Some(ImageFormat::Png));
    assert_eq!(parse_format(&s("gif")), Some(ImageFormat::Gif));
    assert_eq!(parse_format(&s("bmp")), Some(ImageFormat::Bmp));
    assert_eq!(parse_format(&s("tiff")), Some(ImageFormat::Tiff));
    assert_eq!(parse_format(&s("webp")), Some(ImageFormat::Webp));
    assert_eq!(parse_format(&s("txt")), None);
    assert_eq!(parse_format(&s("PNG")), None);
}

#[test]
fn format_extension_round_trips() {
    for fmt in [
        ImageFormat::Jpg,
        ImageFormat::Jpeg,
        ImageFormat::Png,
        ImageFormat::Gif,
        ImageFormat::Bmp,
        ImageFormat::Tiff,
        ImageFormat::Webp,
    ] {
        assert_eq!(parse_format(&format_extension(fmt)), Some(fmt));
    }
}

#[test]
fn required_header_lengths() {
    assert_eq!(required_header_len(ImageFormat::Jpg), 2);
    assert_eq!(required_header_len(ImageFormat::Jpeg), 2);
    assert_eq!(required_header_len(ImageFormat::Png), 8);
    assert_eq!(required_header_len(ImageFormat::Gif), 6);
    assert_eq!(required_header_len(ImageFormat::Bmp), 2);
    assert_eq!(required_header_len(ImageFormat::Tiff), 4);
    assert_eq!(required_header_len(ImageFormat::Webp), 12);
}

#[test]
fn jpeg_magic_is_accepted() {
    let hdr = vec![0xff, 0xd8, 0xff, 0xe0];
    assert!(validate_image_file(&s("jpg"), &hdr).is_ok());
    assert!(validate_image_file(&s("jpeg"), &hdr).is_ok());
}

#[test]
fn png_magic_is_accepted_and_jpeg_prefix_rejected() {
    let png = vec![0x89, 0x50, 0x4e, 0x47, 0x0d, 0x0a, 0x1a, 0x0a];
    assert!(validate_image_file(&s("png"), &png).is_ok());
    let jpeg_prefix = vec![0xff, 0xd8, 0xff, 0xe0, 0x00, 0x10, 0x4a, 0x46];
    assert_eq!(
        validate_image_file(&s("png"), &jpeg_prefix),
        Err(ImageValidationError::InvalidHeader)
    );
}

#[test]
fn gif_magic_both_versions() {
    assert!(validate_image_file(&s("gif"), &b"GIF87a".to_vec()).is_ok());
    assert!(validate_image_file(&s("gif"), &b"GIF89a".to_vec()).is_ok());
    assert_eq!(
        validate_image_file(&s("gif"), &b"GIF88a".to_vec()),
        Err(ImageValidationError::InvalidHeader)
    );
}

#[test]
fn bmp_and_tiff_magic() {
    assert!(validate_image_file(&s("bmp"), &b"BMxx".to_vec()).is_ok());
    assert!(validate_image_file(&s("tiff"), &vec![0x49, 0x49, 0x2a, 0x00]).is_ok());
    assert!(validate_image_file(&s("tiff"), &vec![0x4d, 0x4d, 0x00, 0x2a]).is_ok());
    assert_eq!(
        validate_image_file(&s("tiff"), &vec![0x49, 0x49, 0x00, 0x2a]),
        Err(ImageValidationError::InvalidHeader)
    );
}

#[test]
fn webp_magic_needs_riff_and_tag() {
    let good = b"RIFF\x10\x00\x00\x00WEBP".to_vec();
    assert!(validate_image_file(&s("webp"), &good).is_ok());
    let bad_tag = b"RIFF\x10\x00\x00\x00WAVE".to_vec();
    assert_eq!(
        validate_image_file(&s("webp"), &bad_tag),
        Err(ImageValidationError::InvalidHeader)
    );
}

#[test]
fn short_file_is_too_small() {
    assert_eq!(
        validate_image_file(&s("png"), &vec![0x89, 0x50]),
        Err(ImageValidationError::FileTooSmall)
    );
    assert_eq!(
        validate_image_file(&s("webp"), &b"RIFF".to_vec()),
        Err(ImageValidationError::FileTooSmall)
    );
}

#[test]
fn empty_extension_is_invalid_and_unknown_is_accepted() {
    assert_eq!(
        validate_image_file(&s(""), &vec![0xff, 0xd8]),
        Err(ImageValidationError::InvalidExtension)
    );
    assert!(validate_image_file(&s("heic"), &vec![]).is_ok());
}

#[test]
fn is_valid_image_file_matches_validate() {
    let png = vec![0x89, 0x50, 0x4e, 0x47, 0x0d, 0x0a, 0x1a, 0x0a];
    assert!(is_valid_image_file(&s("png"), &png));
    assert!(!is_valid_image_file(&s("png"), &vec![0u8; 8]));
}

#[test]
fn validation_error_messages() {
    assert_eq!(
        ImageValidationError::InvalidExtension.message(),
        "Invalid file extension"
    );
    assert_eq!(ImageValidationError::FileNotFound.message(), "File not found");
    assert_eq!(
        ImageValidationError::IoError("denied".to_string()).message(),
        "IO error: denied"
    );
    assert_eq!(
        ImageValidationError::InvalidHeader.message(),
        "Invalid image header"
    );
    assert_eq!(
        ImageValidationError::FileTooSmall.message(),
        "File too small to be a valid image"
    );
}
