use wado_compositor::geometry::{Point, Rectangle, Size};
use wado_compositor::placement::{initial_size, place, refit_location, PendingPlacements, Placement, CASCADE_WRAP};

fn output() -> Rectangle {
    Rectangle::new(Point { x: 0, y: 0 }, Size { w: 1280, h: 720 })
}

#[test]
fn centring_rounds_toward_the_origin() {
    assert_eq!(place(Placement::Center, output(), Size { w: 801, h: 601 }, 0), (Point { x: 239, y: 59 }, 0));
    assert_eq!(place(Placement::Center, output(), Size { w: 2000, h: 100 }, 3), (Point { x: 0, y: 310 }, 3));
}

#[test]
fn cascading_steps_diagonally_and_wraps() {
    let s = Size { w: 400, h: 300 };
    assert_eq!(place(Placement::Cascade, output(), s, 0), (Point { x: 0, y: 0 }, 1));
    assert_eq!(place(Placement::Cascade, output(), s, 1), (Point { x: 32, y: 32 }, 2));
    assert_eq!(place(Placement::Cascade, output(), s, CASCADE_WRAP), (Point { x: 0, y: 0 }, CASCADE_WRAP + 1));
    assert_eq!(place(Placement::Cascade, output(), s, u32::MAX), (Point { x: 224, y: 224 }, 0));
}

#[test]
fn a_cascade_step_never_pushes_a_fitting_window_off_the_edge() {
    let big = Size { w: 1270, h: 700 };
    assert_eq!(place(Placement::Cascade, output(), big, 5), (Point { x: 10, y: 20 }, 6));
}

#[test]
fn the_other_policies_use_the_origin() {
    let o = Rectangle::new(Point { x: 5, y: 6 }, Size { w: 100, h: 100 });
    assert_eq!(place(Placement::TopLeft, o, Size { w: 10, h: 10 }, 2), (Point { x: 5, y: 6 }, 2));
    assert_eq!(place(Placement::Maximized, o, Size { w: 10, h: 10 }, 2), (Point { x: 5, y: 6 }, 2));
}

#[test]
fn a_window_off_a_shrunk_output_is_pulled_back() {
    let out = Size { w: 640, h: 360 };
    assert_eq!(refit_location(Point { x: 900, y: 100 }, out), Some(Point { x: 639, y: 100 }));
    assert_eq!(refit_location(Point { x: -50, y: 500 }, out), Some(Point { x: 0, y: 359 }));
    assert_eq!(refit_location(Point { x: 10, y: 10 }, out), None);
    assert_eq!(refit_location(Point { x: 3, y: 3 }, Size { w: 0, h: 0 }), Some(Point { x: 0, y: 0 }));
}

#[test]
fn a_window_is_placed_by_its_first_real_size_and_only_once() {
    let mut p = PendingPlacements::new();
    p.add(7, &vec![]);
    // No size yet: it keeps waiting.
    assert_eq!(p.on_commit(7, Size { w: 0, h: 0 }, Some(output()), Placement::Center, 0), None);
    // No output: it keeps waiting too.
    assert_eq!(p.on_commit(7, Size { w: 400, h: 300 }, None, Placement::Center, 0), None);
    assert_eq!(
        p.on_commit(7, Size { w: 400, h: 300 }, Some(output()), Placement::Center, 0),
        Some((Point { x: 440, y: 210 }, Size { w: 400, h: 300 }, 0))
    );
    assert_eq!(p.on_commit(7, Size { w: 400, h: 300 }, Some(output()), Placement::Center, 0), None);
}

#[test]
fn a_placed_window_is_fitted_first_and_cascades_advance() {
    let mut p = PendingPlacements::new();
    p.add(1, &vec![]);
    p.add(2, &vec![true]);
    assert_eq!(
        p.on_commit(2, Size { w: 2000, h: 300 }, Some(output()), Placement::Cascade, 1),
        Some((Point { x: 0, y: 32 }, Size { w: 1280, h: 300 }, 2))
    );
    assert_eq!(
        p.on_commit(1, Size { w: 100, h: 100 }, Some(output()), Placement::Cascade, 2),
        Some((Point { x: 64, y: 64 }, Size { w: 100, h: 100 }, 3))
    );
}

#[test]
fn windows_that_are_gone_stop_waiting() {
    let mut p = PendingPlacements::new();
    p.add(1, &vec![]);
    p.add(2, &vec![false]);
    assert_eq!(p.on_commit(1, Size { w: 10, h: 10 }, Some(output()), Placement::TopLeft, 0), None);
    assert!(p.on_commit(2, Size { w: 10, h: 10 }, Some(output()), Placement::TopLeft, 0).is_some());
}

#[test]
fn only_a_maximized_placement_sizes_a_new_window() {
    assert_eq!(initial_size(Placement::Maximized, Some(output())), Some(Size { w: 1280, h: 720 }));
    assert_eq!(initial_size(Placement::Maximized, None), None);
    assert_eq!(initial_size(Placement::Center, Some(output())), None);
}
