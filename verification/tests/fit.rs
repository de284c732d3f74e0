use wado_compositor::fit::{advertise_bounds, fit, resize_size, shrink_to};
use wado_compositor::geometry::Size;

fn size(w: i32, h: i32) -> Size {
    Size { w, h }
}

#[test]
fn a_window_that_fits_is_left_alone() {
    let output = size(1280, 720);
    assert_eq!(shrink_to(size(800, 600), output), None);
    assert_eq!(shrink_to(output, output), None);
}

#[test]
fn each_axis_is_clamped_on_its_own() {
    let output = size(1280, 720);
    assert_eq!(shrink_to(size(1920, 600), output), Some(size(1280, 600)));
    assert_eq!(shrink_to(size(800, 1080), output), Some(size(800, 720)));
    assert_eq!(shrink_to(size(1920, 1080), output), Some(output));
}

#[test]
fn the_case_a_phone_actually_hits() {
    let output = size(640, 360);
    assert_eq!(shrink_to(size(900, 700), output), Some(output));
}

#[test]
fn nothing_is_configured_from_a_size_that_is_not_real_yet() {
    assert_eq!(shrink_to(size(0, 0), size(1280, 720)), None);
    assert_eq!(shrink_to(size(800, 600), size(0, 0)), None);
}

#[test]
fn a_resize_is_held_between_the_client_limits() {
    // No limits: only the one-pixel floor applies.
    assert_eq!(resize_size(size(-40, 0), size(0, 0), size(0, 0)), size(1, 1));
    assert_eq!(resize_size(size(5000, 300), size(0, 0), size(0, 0)), size(5000, 300));
    // A minimum and a maximum.
    assert_eq!(resize_size(size(100, 900), size(200, 150), size(800, 600)), size(200, 600));
    // A maximum below the minimum wins, as the clamp order has it.
    assert_eq!(resize_size(size(100, 100), size(300, 300), size(250, 250)), size(250, 250));
}

#[test]
fn only_a_real_output_bounds_a_window() {
    assert_eq!(advertise_bounds(size(1280, 720)), Some(size(1280, 720)));
    assert_eq!(advertise_bounds(size(0, 720)), None);
    assert_eq!(advertise_bounds(size(1280, -1)), None);
}

#[test]
fn a_window_is_placed_by_the_size_it_was_asked_to_take() {
    let output = size(1280, 720);
    assert_eq!(fit(size(1920, 600), output), size(1280, 600));
    assert_eq!(fit(size(800, 600), output), size(800, 600));
    assert_eq!(fit(size(0, 0), output), size(0, 0));
}
