//! The format negotiator: explicit selectors, the `auto` path, and the
//! format tables.

use rusty_resizer::format::{
    format_from_extension, negotiate_format, resolve_source_format, supports_webp, ImageFormat,
    ResizeImageFormat,
};
use rusty_resizer::error::ImageError;

#[test]
fn test_explicit_format_always_wins() {
    let c = negotiate_format(Some(ResizeImageFormat::Png), true, ImageFormat::Jpeg);
    assert_eq!(c.format, ImageFormat::Png);
    assert!(!c.vary);
    let c = negotiate_format(Some(ResizeImageFormat::Png), false, ImageFormat::Jpeg);
    assert_eq!(c.format, ImageFormat::Png);
    assert!(!c.vary);
}

#[test]
fn test_auto_with_webp_support_picks_webp_and_varies() {
    let c = negotiate_format(Some(ResizeImageFormat::Auto), true, ImageFormat::Jpeg);
    assert_eq!(c.format, ImageFormat::WebP);
    assert!(c.vary);
}

#[test]
fn test_auto_without_webp_support_falls_back_and_still_varies() {
    let c = negotiate_format(Some(ResizeImageFormat::Auto), false, ImageFormat::Jpeg);
    assert_eq!(c.format, ImageFormat::Jpeg);
    assert!(c.vary);
}

#[test]
fn test_no_selector_keeps_source_format() {
    let c = negotiate_format(None, true, ImageFormat::Gif);
    assert_eq!(c.format, ImageFormat::Gif);
    assert!(!c.vary);
}

#[test]
fn test_supports_webp_looks_for_the_media_type() {
    assert!(supports_webp(Some("image/avif,image/webp,image/apng,*/*;q=0.8")));
    assert!(!supports_webp(Some("text/html,application/xhtml+xml")));
    assert!(!supports_webp(None));
    assert!(supports_webp(Some("image/webp")));
    assert!(!supports_webp(Some("image/web")));
}

#[test]
fn test_format_from_extension_is_case_insensitive() {
    assert_eq!(format_from_extension("JPEG"), Some(ImageFormat::Jpeg));
    assert_eq!(format_from_extension("jpg"), Some(ImageFormat::Jpeg));
    assert_eq!(format_from_extension("PNG"), Some(ImageFormat::Png));
    assert_eq!(format_from_extension("WEBP"), Some(ImageFormat::WebP));
    assert_eq!(format_from_extension("GIF"), Some(ImageFormat::Gif));
    assert_eq!(format_from_extension("exr"), Some(ImageFormat::OpenExr));
    assert_eq!(format_from_extension("nope"), None);
}

#[test]
fn test_resolve_source_format_errors_on_unknown_name() {
    let r = resolve_source_format("XPM");
    assert_eq!(r, Err(ImageError::InvalidFormat));
    assert_eq!(ImageError::InvalidFormat.message(), "Invalid Format For Image");
    assert_eq!(resolve_source_format("TIFF"), Ok(ImageFormat::Tiff));
}

#[test]
fn test_image_error_messages() {
    assert_eq!(ImageError::InvalidImage.message(), "Invalid Image");
    assert_eq!(ImageError::InvalidFormat.message(), "Invalid Format For Image");
    assert_eq!(ImageError::FailedWrite.message(), "Failed To Write Image");
}

#[test]
fn test_mime_types() {
    assert_eq!(ImageFormat::Jpeg.mime_type(), "image/jpeg");
    assert_eq!(ImageFormat::Png.mime_type(), "image/png");
    assert_eq!(ImageFormat::WebP.mime_type(), "image/webp");
    assert_eq!(ImageFormat::Gif.mime_type(), "image/gif");
    assert_eq!(ImageFormat::Avif.mime_type(), "image/avif");
}

#[test]
fn test_selector_to_format_mapping() {
    assert_eq!(ResizeImageFormat::Auto.to_image_format(), None);
    assert_eq!(ResizeImageFormat::WebP.to_image_format(), Some(ImageFormat::WebP));
    assert_eq!(ResizeImageFormat::Jpeg.to_image_format(), Some(ImageFormat::Jpeg));
    assert_eq!(ResizeImageFormat::Farbfeld.to_image_format(), Some(ImageFormat::Farbfeld));
}

#[test]
fn test_extensions() {
    assert_eq!(ImageFormat::Jpeg.extension(), "jpg");
    assert_eq!(ImageFormat::Png.extension(), "png");
    assert_eq!(ImageFormat::WebP.extension(), "webp");
}
