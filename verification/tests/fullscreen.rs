use wado_compositor::content_type::{ContentType, ContentTypeLog};
use wado_compositor::fullscreen::FullscreenMemo;
use wado_compositor::geometry::{Point, Size};

#[test]
fn leaving_fullscreen_restores_the_windowed_geometry() {
    let mut m = FullscreenMemo::new();
    m.enter(1, Some(Point { x: 40, y: 30 }), Size { w: 800, h: 600 });
    assert_eq!(m.leave(1, Some(Size { w: 1280, h: 720 })), (Point { x: 40, y: 30 }, Some(Size { w: 800, h: 600 })));
    // Forgotten once used.
    assert_eq!(m.leave(1, Some(Size { w: 1280, h: 720 })), (Point { x: 0, y: 0 }, None));
}

#[test]
fn asking_twice_keeps_the_first_geometry() {
    let mut m = FullscreenMemo::new();
    m.enter(1, Some(Point { x: 40, y: 30 }), Size { w: 800, h: 600 });
    m.enter(1, Some(Point { x: 0, y: 0 }), Size { w: 1280, h: 720 });
    assert_eq!(m.leave(1, None), (Point { x: 40, y: 30 }, Some(Size { w: 800, h: 600 })));
}

#[test]
fn a_restored_size_is_refitted_to_a_smaller_output() {
    let mut m = FullscreenMemo::new();
    m.enter(2, Some(Point { x: 10, y: 10 }), Size { w: 1600, h: 900 });
    assert_eq!(m.leave(2, Some(Size { w: 1280, h: 720 })), (Point { x: 10, y: 10 }, Some(Size { w: 1280, h: 720 })));
}

#[test]
fn an_unplaced_window_has_nothing_to_restore() {
    let mut m = FullscreenMemo::new();
    m.enter(3, None, Size { w: 800, h: 600 });
    assert_eq!(m.leave(3, None), (Point { x: 0, y: 0 }, None));
}

#[test]
fn only_a_change_of_content_type_is_news() {
    let mut log = ContentTypeLog::new();
    assert!(!log.observe(7, ContentType::Unspecified));
    assert!(log.observe(7, ContentType::Video));
    assert!(!log.observe(7, ContentType::Video));
    assert!(log.observe(7, ContentType::Unspecified));
    assert!(!log.observe(7, ContentType::Unspecified));
    assert!(log.observe(8, ContentType::Game));
    log.clear();
    assert!(log.observe(8, ContentType::Game));
    assert!(log.observe(9, ContentType::Photo));
}
