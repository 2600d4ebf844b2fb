use image_canvas::about::AboutWindow;
use image_canvas::app_state::{AppState, LayoutState};

#[test]
fn about_window_content() {
    let w = AboutWindow::new();
    assert_eq!(w.title(), "About");
    assert_eq!(w.heading(), "esim workbench");
    assert_eq!(w.version_line(), "Version 0.1.0");
}

#[test]
fn app_state_starts_with_about_closed() {
    let s = AppState::default();
    assert!(!s.show_about);
}

#[test]
fn layout_state_starts_with_left_panel_only() {
    let s = LayoutState::default();
    assert!(s.show_left_side);
    assert!(!s.show_right_side);
}
