//! The combined per-request decision, as the request handler uses it.

use rusty_resizer::config::Configuration;
use rusty_resizer::format::{ImageFormat, ResizeImageFormat};
use rusty_resizer::headers::compose_headers;
use rusty_resizer::pipeline::{plan_response, ResizeOptions};
use rusty_resizer::resize::ResizeMode;

fn test_config() -> Configuration {
    Configuration::new(String::from("test"), String::from("img.example.com"), 1, 0, 85)
}

fn options(
    width: Option<u32>,
    height: Option<u32>,
    quality: Option<u8>,
    format: Option<ResizeImageFormat>,
) -> ResizeOptions {
    ResizeOptions { source: String::from("https://img.example.com/a.jpg"), width, height, quality, format }
}

#[test]
fn test_plan_resizes_and_reencodes() {
    let config = test_config();
    let opts = options(Some(100), Some(100), None, None);
    let plan = plan_response(&opts, &config, 2250, 2250, false, false, ImageFormat::Jpeg, 0);
    assert_eq!(plan.resize.width, 100);
    assert_eq!(plan.resize.height, 100);
    assert_eq!(plan.resize.mode, ResizeMode::Thumbnail);
    assert_eq!(plan.format, ImageFormat::Jpeg);
    assert_eq!(plan.quality, 85);
    assert_eq!(plan.cache.max_age, 3600);
    assert!(!plan.vary_accept);
}

#[test]
fn test_plan_without_bounds_skips_resize_but_reencodes() {
    let config = test_config();
    let opts = options(None, None, None, None);
    let plan = plan_response(&opts, &config, 2250, 2250, false, true, ImageFormat::Jpeg, 0);
    assert_eq!(plan.resize.width, 2250);
    assert_eq!(plan.resize.height, 2250);
    assert_eq!(plan.resize.mode, ResizeMode::Skip);
    assert_eq!(plan.format, ImageFormat::Jpeg);
    assert_eq!(plan.quality, 85);
}

#[test]
fn test_plan_honors_quality_override_and_auto_format() {
    let config = test_config();
    let opts = options(Some(225), Some(225), Some(40), Some(ResizeImageFormat::Auto));
    let plan = plan_response(&opts, &config, 2250, 2250, false, true, ImageFormat::Jpeg, 0);
    assert_eq!(plan.quality, 40);
    assert_eq!(plan.format, ImageFormat::WebP);
    assert!(plan.vary_accept);
    let headers = compose_headers(plan.format, plan.cache, plan.vary_accept);
    assert_eq!(headers.content_type, "image/webp");
    assert_eq!(headers.cache_control, "max-age=3600");
    assert!(headers.vary_accept);
}

#[test]
fn test_plan_multi_frame_fits_the_scene() {
    let config = test_config();
    let opts = options(Some(100), None, None, Some(ResizeImageFormat::WebP));
    let plan = plan_response(&opts, &config, 400, 300, true, false, ImageFormat::Gif, 7);
    assert_eq!(plan.resize.mode, ResizeMode::FitScene);
    assert_eq!(plan.resize.width, 100);
    assert_eq!(plan.resize.height, 75);
    assert_eq!(plan.format, ImageFormat::WebP);
    assert_eq!(plan.cache.last_modified, 7);
    assert_eq!(plan.cache.expires, 7 + 3600);
}
