use wado_compositor::geometry::{rects_overlap, Point, Rectangle, Size};
use wado_compositor::glow::{glow_rects, ring_rects, rings};

fn window() -> Rectangle {
    Rectangle::new(Point { x: 100, y: 50 }, Size { w: 400, h: 300 })
}

#[test]
fn a_ring_encloses_the_window_without_touching_it() {
    let g = window();
    let rects = ring_rects(g, 0, 2);
    for r in rects {
        assert!(!rects_overlap(r, g), "a ring quad covered the window: {r:?}");
    }
    assert_eq!(rects[0].size.w, g.size.w + 4);
    assert_eq!(rects[2].size.h, g.size.h);
    assert_eq!(rects[0].loc.y, g.loc.y - 2);
    assert_eq!(rects[1].loc.y, g.loc.y + g.size.h);
}

#[test]
fn quads_never_overlap_each_other() {
    let g = window();
    let all: Vec<_> = rings().iter().flat_map(|r| ring_rects(g, r.inset, r.thickness)).collect();
    for (i, a) in all.iter().enumerate() {
        for b in &all[i + 1..] {
            assert!(!rects_overlap(*a, *b), "two ring quads overlap: {a:?} {b:?}");
        }
    }
}

#[test]
fn the_outer_ring_sits_outside_the_inner_one() {
    let g = window();
    let r = rings();
    let inner = ring_rects(g, r[0].inset, r[0].thickness);
    let outer = ring_rects(g, r[1].inset, r[1].thickness);
    assert!(outer[0].loc.y < inner[0].loc.y);
    assert_eq!(outer[0].loc.y + outer[0].size.h, inner[0].loc.y);
}

#[test]
fn the_ring_quads_sit_exactly_on_each_side() {
    let g = window();
    let rects = ring_rects(g, 2, 3);
    // top, bottom, left, right
    assert_eq!(rects[0], Rectangle::new(Point { x: 95, y: 45 }, Size { w: 410, h: 3 }));
    assert_eq!(rects[1], Rectangle::new(Point { x: 95, y: 352 }, Size { w: 410, h: 3 }));
    assert_eq!(rects[2], Rectangle::new(Point { x: 95, y: 48 }, Size { w: 3, h: 304 }));
    assert_eq!(rects[3], Rectangle::new(Point { x: 502, y: 48 }, Size { w: 3, h: 304 }));
}

#[test]
fn rectangles_that_only_touch_do_not_overlap() {
    let a = Rectangle::new(Point { x: 0, y: 0 }, Size { w: 10, h: 10 });
    let b = Rectangle::new(Point { x: 10, y: 0 }, Size { w: 10, h: 10 });
    let c = Rectangle::new(Point { x: 9, y: 9 }, Size { w: 10, h: 10 });
    assert!(!rects_overlap(a, b));
    assert!(rects_overlap(a, c));
    assert!(Size { w: 0, h: 5 }.is_empty());
}

#[test]
fn nothing_is_drawn_without_a_focused_window() {
    assert!(glow_rects(None).is_empty());
    let empty = Rectangle::new(Point { x: 0, y: 0 }, Size { w: 0, h: 0 });
    assert!(glow_rects(Some(empty)).is_empty());
    assert_eq!(glow_rects(Some(window())).len(), rings().len() * 4);
}

#[test]
fn the_glow_is_the_inner_ring_then_the_outer_one() {
    let g = window();
    let r = rings();
    let mut expected = ring_rects(g, r[0].inset, r[0].thickness).to_vec();
    expected.extend(ring_rects(g, r[1].inset, r[1].thickness));
    assert_eq!(glow_rects(Some(g)), expected);
}
