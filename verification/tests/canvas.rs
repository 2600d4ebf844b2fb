use image_canvas::canvas::{error_message, placeholder_message, DrawCmd, FrameInput, ImageCanvas};
use image_canvas::geometry::{RectFix, Vec2Fix};
use image_canvas::transform::SCROLL_NO_OP;

fn container_rect() -> RectFix {
    RectFix::new(Vec2Fix::new(0, 0), Vec2Fix::new(500_000_000, 500_000_000))
}

fn idle_input() -> FrameInput {
    FrameInput {
        hovered: false,
        pointer: None,
        dragged: false,
        drag_delta: Vec2Fix::new(0, 0),
        double_clicked: false,
        scroll_delta_y: SCROLL_NO_OP,
        zoom_factor: 1_000_000,
    }
}

#[test]
fn viewer_and_map_variants_differ_only_in_bounds() {
    let viewer = ImageCanvas::new_viewer();
    let map = ImageCanvas::new_map();
    assert_eq!(viewer.transform.min_scale, 500_000);
    assert_eq!(viewer.transform.max_scale, 2_000_000);
    assert_eq!(map.transform.min_scale, 300_000);
    assert_eq!(map.transform.max_scale, 2_000_000);
    assert!(viewer.image.is_none() && map.image.is_none());
    assert!(!viewer.error && !map.error);
}

#[test]
fn load_is_idempotent_per_path() {
    // The canvas decides whether a path needs decoding; a loaded path
    // no longer counts as new, so the second load is a no-op and only
    // one decode and upload happen per path.
    let mut cv = ImageCanvas::new_viewer();
    let path = String::from("photos/cat.png");
    let mut decodes: u32 = 0;
    for _ in 0..2 {
        if cv.is_new_img(&path) {
            decodes += 1;
            cv.load_success(path.clone(), 7, 1000, 500);
        }
    }
    assert_eq!(decodes, 1);
    assert!(!cv.is_new_img(&path));
    assert!(cv.is_new_img(&String::from("photos/dog.png")));
}

#[test]
fn successful_load_replaces_image_and_clears_error() {
    let mut cv = ImageCanvas::new_viewer();
    cv.load_failure();
    assert!(cv.error);
    cv.load_success(String::from("a.png"), 3, 640, 480);
    assert!(!cv.error);
    let li = cv.image.as_ref().unwrap();
    assert_eq!(li.path, "a.png");
    assert_eq!(li.texture, 3);
    assert_eq!((li.width, li.height), (640, 480));
    // A fresh, unfitted transform replaces the old one.
    assert!(!cv.transform.initialized);
    cv.load_success(String::from("b.png"), 4, 320, 200);
    assert_eq!(cv.image.as_ref().unwrap().path, "b.png");
}

#[test]
fn scenario_c_failed_load_shows_only_the_error_and_retains_the_image() {
    let mut cv = ImageCanvas::new_viewer();
    cv.load_success(String::from("a.png"), 3, 640, 480);
    cv.load_failure();
    let cmds = cv.render(container_rect(), idle_input());
    assert_eq!(cmds.len(), 1);
    assert!(matches!(cmds[0], DrawCmd::ErrorText));
    // The previous image stays referenced, just not drawn.
    assert!(cv.image.is_some());
    assert_eq!(
        error_message(),
        "Error loading image, try another."
    );
}

#[test]
fn empty_canvas_shows_only_the_placeholder() {
    let mut cv = ImageCanvas::new_viewer();
    let cmds = cv.render(container_rect(), idle_input());
    assert_eq!(cmds.len(), 1);
    assert!(matches!(cmds[0], DrawCmd::Placeholder));
    assert_eq!(placeholder_message(), "No image.");
}

#[test]
fn first_frame_fits_and_draws_border_and_texture() {
    let mut cv = ImageCanvas::new_viewer();
    cv.load_success(String::from("a.png"), 9, 1000, 500);
    let cmds = cv.render(container_rect(), idle_input());
    assert_eq!(cv.transform.scale, 500_000);
    assert_eq!(cv.transform.offset, Vec2Fix::new(0, 0));
    assert!(cv.transform.initialized);
    let rect = RectFix::new(Vec2Fix::new(0, 125_000_000), Vec2Fix::new(500_000_000, 250_000_000));
    assert_eq!(cmds.len(), 2);
    assert_eq!(
        cmds[0],
        DrawCmd::Border { rect, corner_radius: 8_000_000, stroke_width: 2_000_000 }
    );
    assert_eq!(cmds[1], DrawCmd::Texture { texture: 9, rect });
}

#[test]
fn hovering_pointer_over_the_image_gets_a_pixel_readout() {
    let mut cv = ImageCanvas::new_viewer();
    cv.load_success(String::from("a.png"), 9, 1000, 500);
    let pointer = Vec2Fix::new(250_000_000, 250_000_000);
    let mut input = idle_input();
    input.hovered = true;
    input.pointer = Some(pointer);
    let cmds = cv.render(container_rect(), input);
    assert_eq!(cmds.len(), 3);
    // Image pixel under the container centre: x = 250 / 0.5 = 500,
    // y = (250 - 125) / 0.5 = 250.
    assert_eq!(cmds[2], DrawCmd::Readout { anchor: pointer, pixel_x: 500, pixel_y: 250 });
}

#[test]
fn pointer_outside_the_image_gets_no_readout() {
    let mut cv = ImageCanvas::new_viewer();
    cv.load_success(String::from("a.png"), 9, 1000, 500);
    let mut input = idle_input();
    input.hovered = true;
    // Above the letterboxed image, still inside the container.
    input.pointer = Some(Vec2Fix::new(250_000_000, 50_000_000));
    let cmds = cv.render(container_rect(), input);
    assert_eq!(cmds.len(), 2);
}

#[test]
fn drag_pans_the_image_during_render() {
    let mut cv = ImageCanvas::new_viewer();
    cv.load_success(String::from("a.png"), 9, 1000, 500);
    cv.render(container_rect(), idle_input());
    let mut input = idle_input();
    input.dragged = true;
    input.drag_delta = Vec2Fix::new(7_000_000, -2_000_000);
    cv.render(container_rect(), input);
    assert_eq!(cv.transform.offset, Vec2Fix::new(7_000_000, -2_000_000));
}

#[test]
fn double_click_resets_the_view_during_render() {
    let mut cv = ImageCanvas::new_viewer();
    cv.load_success(String::from("a.png"), 9, 1000, 500);
    let mut input = idle_input();
    input.dragged = true;
    input.drag_delta = Vec2Fix::new(33_000_000, 44_000_000);
    cv.render(container_rect(), input);
    assert_ne!(cv.transform.offset, Vec2Fix::new(0, 0));
    let mut reset_input = idle_input();
    reset_input.double_clicked = true;
    cv.render(container_rect(), reset_input);
    assert_eq!(cv.transform.scale, 500_000);
    assert_eq!(cv.transform.offset, Vec2Fix::new(0, 0));
}

#[test]
fn scroll_sentinel_changes_nothing_during_render() {
    let mut cv = ImageCanvas::new_viewer();
    cv.load_success(String::from("a.png"), 9, 1000, 500);
    cv.render(container_rect(), idle_input());
    let before = (cv.transform.scale, cv.transform.offset);
    let mut input = idle_input();
    input.hovered = true;
    input.pointer = Some(Vec2Fix::new(250_000_000, 250_000_000));
    input.scroll_delta_y = SCROLL_NO_OP;
    input.zoom_factor = 1_105_171;
    cv.render(container_rect(), input);
    assert_eq!((cv.transform.scale, cv.transform.offset), before);
}
