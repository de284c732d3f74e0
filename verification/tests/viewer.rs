use wado_compositor::congestion::WINDOW_TICKS;
use wado_compositor::viewer::{ViewerAction, ViewerState};

fn none() -> ViewerAction {
    ViewerAction { force_keyframe: false, publish_divisor: None }
}

#[test]
fn nothing_renders_before_a_viewer_attaches() {
    let mut v = ViewerState::new();
    assert!(!v.attached());
    assert_eq!(v.render_this_tick(true, 0), (false, None));
}

#[test]
fn a_started_session_renders_at_full_rate() {
    let mut v = ViewerState::new();
    assert_eq!(v.session_started(), ViewerAction { force_keyframe: false, publish_divisor: Some(1) });
    assert!(v.attached());
    assert_eq!(v.render_this_tick(true, 0), (true, None));
    // Without a whole pipeline nothing renders, and the controller is not consulted.
    assert_eq!(v.render_this_tick(false, 1000), (false, None));
    assert_eq!(v.divisor(), 1);
}

#[test]
fn a_hidden_page_pauses_and_its_return_asks_for_a_keyframe() {
    let mut v = ViewerState::new();
    v.session_started();
    assert_eq!(v.set_visible(false), none());
    assert_eq!(v.render_this_tick(true, 0), (false, None));
    assert_eq!(v.set_visible(false), none());
    assert_eq!(v.set_visible(true), ViewerAction { force_keyframe: true, publish_divisor: None });
}

#[test]
fn drops_shed_and_the_new_divisor_is_published_once() {
    let mut v = ViewerState::new();
    v.session_started();
    for _ in 0..(WINDOW_TICKS - 1) {
        assert_eq!(v.render_this_tick(true, 0).1, None);
    }
    // The window closes on this tick with drops in it.
    assert_eq!(v.render_this_tick(true, 9), (true, Some(2)));
    assert_eq!(v.divisor(), 2);
    assert_eq!(v.render_this_tick(true, 9), (true, None));
    assert_eq!(v.render_this_tick(true, 9), (false, None));
}

#[test]
fn a_returning_viewer_keeps_its_rate_and_gets_a_keyframe() {
    let mut v = ViewerState::new();
    v.session_started();
    for _ in 0..WINDOW_TICKS {
        v.render_this_tick(true, 9);
    }
    assert_eq!(v.divisor(), 2);
    assert_eq!(v.set_attached(false), none());
    assert_eq!(v.set_attached(false), none());
    assert_eq!(v.set_attached(true), ViewerAction { force_keyframe: true, publish_divisor: Some(2) });
    assert_eq!(v.divisor(), 2);
}

#[test]
fn a_reconfigure_resets_the_rate_and_asks_for_a_keyframe() {
    let mut v = ViewerState::new();
    v.session_started();
    v.set_strained(true);
    for _ in 0..WINDOW_TICKS {
        v.render_this_tick(true, 9);
    }
    assert_eq!(v.reconfigured(), ViewerAction { force_keyframe: true, publish_divisor: Some(1) });
    assert_eq!(v.divisor(), 1);
}
