//! The resize calculator: contain fit, rounding, and the no-op rule.

use rusty_resizer::resize::{ResizeMode, ResizePlan};

#[test]
fn test_resize_both_bounds_square() {
    let p = ResizePlan::compute(2250, 2250, Some(100), Some(100), false);
    assert_eq!(p.width, 100);
    assert_eq!(p.height, 100);
    assert_eq!(p.mode, ResizeMode::Thumbnail);
}

#[test]
fn test_resize_width_only_rounds_to_nearest() {
    let p = ResizePlan::compute(1500, 1000, Some(1000), None, false);
    assert_eq!(p.width, 1000);
    assert_eq!(p.height, 667);
}

#[test]
fn test_resize_height_only_rounds_to_nearest() {
    let p = ResizePlan::compute(1000, 1500, None, Some(1000), false);
    assert_eq!(p.width, 667);
    assert_eq!(p.height, 1000);
}

#[test]
fn test_resize_overshot_height_bound_does_not_distort() {
    let p = ResizePlan::compute(1500, 1000, Some(1000), Some(9999), false);
    assert_eq!(p.width, 1000);
    assert_eq!(p.height, 667);
}

#[test]
fn test_resize_no_bounds_is_noop() {
    let p = ResizePlan::compute(2250, 2250, None, None, false);
    assert_eq!(p.width, 2250);
    assert_eq!(p.height, 2250);
    assert_eq!(p.mode, ResizeMode::Skip);
}

#[test]
fn test_resize_matching_bounds_is_noop() {
    let p = ResizePlan::compute(2250, 2250, Some(2250), Some(2250), false);
    assert_eq!(p.width, 2250);
    assert_eq!(p.height, 2250);
    assert_eq!(p.mode, ResizeMode::Skip);
}

#[test]
fn test_resize_multi_frame_uses_scene_fit() {
    let p = ResizePlan::compute(500, 500, Some(100), Some(100), true);
    assert_eq!(p.mode, ResizeMode::FitScene);
    let q = ResizePlan::compute(500, 500, Some(100), Some(100), false);
    assert_eq!(q.mode, ResizeMode::Thumbnail);
}

#[test]
fn test_resize_half_rounds_up() {
    // 150 * 1 / 100 scaled: height for width 1 of a 100x150 image is 1.5.
    let p = ResizePlan::compute(100, 150, Some(1), None, false);
    assert_eq!(p.width, 1);
    assert_eq!(p.height, 2);
}

#[test]
fn test_resize_result_touches_a_bound() {
    let p = ResizePlan::compute(1500, 1000, Some(400), Some(400), false);
    // The tighter constraint is the width: 400 x 267.
    assert_eq!(p.width, 400);
    assert_eq!(p.height, 267);
    assert!(p.width == 400 || p.height == 400);
}
