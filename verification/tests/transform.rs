use image_canvas::geometry::{ImageSize, RectFix, Vec2Fix};
use image_canvas::transform::{ViewportTransform, SCROLL_NO_OP};

fn container_rect() -> RectFix {
    // A 500 x 500 pixel container at the origin, in millionths.
    RectFix::new(Vec2Fix::new(0, 0), Vec2Fix::new(500_000_000, 500_000_000))
}

fn fitted_viewer() -> ViewportTransform {
    // Scenario A: a 1000 x 500 image fitted into a 500 x 500 container.
    let mut t = ViewportTransform::new(500_000, 2_000_000);
    t.fit(ImageSize::new(1000, 500), container_rect().size);
    t
}

#[test]
fn scenario_a_fit_gives_half_scale_and_zero_offset() {
    let t = fitted_viewer();
    assert_eq!(t.scale, 500_000);
    assert_eq!(t.offset, Vec2Fix::new(0, 0));
    assert!(t.initialized);
}

#[test]
fn fit_is_idempotent() {
    let mut t = fitted_viewer();
    let first = t;
    t.fit(ImageSize::new(1000, 500), container_rect().size);
    assert_eq!(t, first);
}

#[test]
fn fit_may_exceed_max_scale() {
    // A tiny image letterboxed into a large container: the fit scale
    // legitimately exceeds the interactive maximum.
    let mut t = ViewportTransform::new(500_000, 2_000_000);
    t.fit(ImageSize::new(10, 10), container_rect().size);
    assert_eq!(t.scale, 50_000_000);
}

#[test]
fn scenario_b_center_anchored_zoom_does_not_pan() {
    // Scenario B: scroll -100.0 gives a factor exp(0.1) ~ 1.105171;
    // the pointer sits at the container centre, so the offset stays
    // exactly zero while the scale grows to ~0.553.
    let mut t = fitted_viewer();
    t.zoom_at_point(
        -100_000_000,
        1_105_171,
        container_rect(),
        Some(Vec2Fix::new(250_000_000, 250_000_000)),
        true,
    );
    assert_eq!(t.scale, 552_585);
    assert_eq!(t.offset, Vec2Fix::new(0, 0));
}

#[test]
fn scroll_sentinel_is_a_no_op() {
    let mut t = fitted_viewer();
    let before = t;
    t.zoom_at_point(
        SCROLL_NO_OP,
        1_105_171,
        container_rect(),
        Some(Vec2Fix::new(250_000_000, 250_000_000)),
        true,
    );
    assert_eq!(t, before);
}

#[test]
fn unhovered_zoom_is_a_no_op() {
    let mut t = fitted_viewer();
    let before = t;
    t.zoom_at_point(
        -100_000_000,
        1_105_171,
        container_rect(),
        Some(Vec2Fix::new(250_000_000, 250_000_000)),
        false,
    );
    assert_eq!(t, before);
}

#[test]
fn zoom_scale_stays_within_bounds_over_any_sequence() {
    let mut t = fitted_viewer();
    let pointer = Some(Vec2Fix::new(120_000_000, 330_000_000));
    for _ in 0..20 {
        // Doubling steps: the scale must clamp at the maximum.
        t.zoom_at_point(-700_000_000, 2_000_000, container_rect(), pointer, true);
        assert!(t.min_scale <= t.scale && t.scale <= t.max_scale);
    }
    assert_eq!(t.scale, 2_000_000);
    for _ in 0..20 {
        // Halving steps: the scale must clamp at the minimum.
        t.zoom_at_point(700_000_000, 500_000, container_rect(), pointer, true);
        assert!(t.min_scale <= t.scale && t.scale <= t.max_scale);
    }
    assert_eq!(t.scale, 500_000);
}

#[test]
fn zoom_from_oversized_fit_clamps_back_into_bounds() {
    let mut t = ViewportTransform::new(500_000, 2_000_000);
    t.fit(ImageSize::new(10, 10), container_rect().size);
    assert!(t.scale > t.max_scale);
    t.zoom_at_point(-1_000_000, 1_001_000, container_rect(), None, true);
    assert_eq!(t.scale, 2_000_000);
}

#[test]
fn pan_accumulates_drag_deltas() {
    let mut t = fitted_viewer();
    t.pan(Vec2Fix::new(5_000_000, -3_000_000));
    t.pan(Vec2Fix::new(5_000_000, -3_000_000));
    assert_eq!(t.offset, Vec2Fix::new(10_000_000, -6_000_000));
}

#[test]
fn reset_restores_fit_after_pan_and_zoom() {
    let mut t = fitted_viewer();
    t.pan(Vec2Fix::new(42_000_000, -17_500_000));
    t.zoom_at_point(
        -250_000_000,
        1_284_025,
        container_rect(),
        Some(Vec2Fix::new(100_000_000, 400_000_000)),
        true,
    );
    assert_ne!(t.offset, Vec2Fix::new(0, 0));
    t.reset(ImageSize::new(1000, 500), container_rect().size);
    let fresh = fitted_viewer();
    assert_eq!(t.scale, fresh.scale);
    assert_eq!(t.offset, fresh.offset);
}

#[test]
fn zoom_keeps_the_image_point_under_the_pointer() {
    // The anchor invariant on concrete values: the pointer's relative
    // position inside the on-screen image rectangle is reproduced
    // after the zoom within one part in ten thousand.
    let mut t = ViewportTransform::new(500_000, 2_000_000);
    let img = ImageSize::new(800, 600);
    t.fit(img, container_rect().size);
    t.pan(Vec2Fix::new(10_000_000, 20_000_000));
    let pointer = Vec2Fix::new(200_000_000, 220_000_000);
    let r1 = t.image_rect(container_rect(), img);
    assert!(r1.min.x < pointer.x && pointer.x < r1.min.x + r1.size.x);
    assert!(r1.min.y < pointer.y && pointer.y < r1.min.y + r1.size.y);
    let u1 = (pointer.x - r1.min.x) as f64 / r1.size.x as f64;
    let v1 = (pointer.y - r1.min.y) as f64 / r1.size.y as f64;
    t.zoom_at_point(-180_000_000, 1_197_217, container_rect(), Some(pointer), true);
    let r2 = t.image_rect(container_rect(), img);
    let u2 = (pointer.x - r2.min.x) as f64 / r2.size.x as f64;
    let v2 = (pointer.y - r2.min.y) as f64 / r2.size.y as f64;
    assert!((u2 - u1).abs() <= 1e-4);
    assert!((v2 - v1).abs() <= 1e-4);
}

#[test]
fn uninitialized_transform_starts_at_zero() {
    let t = ViewportTransform::new(300_000, 2_000_000);
    assert!(!t.initialized);
    assert_eq!(t.scale, 0);
    assert_eq!(t.offset, Vec2Fix::new(0, 0));
    assert_eq!(t.min_scale, 300_000);
    assert_eq!(t.max_scale, 2_000_000);
}
