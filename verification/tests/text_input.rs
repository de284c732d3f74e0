use wado_compositor::text_input::{FocusSurface, TextInputData, TextInputEvent, TextInputRequest, TextInputs};

#[test]
fn enable_takes_effect_on_commit() {
    let mut d = TextInputData::new();
    assert_eq!(d.request(TextInputRequest::Enable), None);
    assert!(!d.enabled);
    assert_eq!(d.request(TextInputRequest::Commit), Some(1));
    assert!(d.enabled);
    d.request(TextInputRequest::Disable);
    assert!(d.enabled);
    assert_eq!(d.request(TextInputRequest::Commit), Some(2));
    assert!(!d.enabled);
    assert_eq!(d.request(TextInputRequest::Other), None);
}

#[test]
fn the_serial_wraps() {
    let mut d = TextInputData { pending: false, enabled: false, serial: u32::MAX };
    assert_eq!(d.request(TextInputRequest::Commit), Some(0));
}

#[test]
fn leaving_resets_the_state_but_not_the_serial() {
    let mut d = TextInputData { pending: true, enabled: true, serial: 7 };
    d.leave();
    assert_eq!(d, TextInputData { pending: false, enabled: false, serial: 7 });
}

#[test]
fn focus_moves_send_leaves_then_enters() {
    let mut t = TextInputs::new();
    assert_eq!(t.add_object(10, 1), None);
    assert_eq!(t.add_object(20, 2), None);
    let a = FocusSurface { id: 100, client: 1 };
    let b = FocusSurface { id: 200, client: 2 };
    assert_eq!(t.focus_changed(Some(a)), vec![TextInputEvent::Enter { object: 10, surface: 100 }]);
    assert!(t.focus_changed(Some(a)).is_empty());
    assert_eq!(
        t.focus_changed(Some(b)),
        vec![
            TextInputEvent::Leave { object: 10, surface: 100 },
            TextInputEvent::Enter { object: 20, surface: 200 },
        ]
    );
    assert_eq!(t.focus_changed(None), vec![TextInputEvent::Leave { object: 20, surface: 200 }]);
}

#[test]
fn the_focused_client_asking_for_text_is_what_counts() {
    let mut t = TextInputs::new();
    t.add_object(10, 1);
    let a = FocusSurface { id: 100, client: 1 };
    t.focus_changed(Some(a));
    t.object_request(10, TextInputRequest::Enable);
    assert!(!t.active());
    assert_eq!(t.object_request(10, TextInputRequest::Commit), Some(1));
    assert!(t.active());
    // Leaving resets the object, so coming back is not enabled until the client asks again.
    t.focus_changed(None);
    assert!(!t.active());
    t.focus_changed(Some(a));
    assert!(!t.active());
    assert_eq!(t.object_request(99, TextInputRequest::Commit), None);
}

#[test]
fn an_object_created_under_focus_is_entered_at_once_and_removal_counts() {
    let mut t = TextInputs::new();
    t.focus_changed(Some(FocusSurface { id: 5, client: 3 }));
    assert_eq!(t.add_object(30, 3), Some(TextInputEvent::Enter { object: 30, surface: 5 }));
    t.object_request(30, TextInputRequest::Enable);
    t.object_request(30, TextInputRequest::Commit);
    assert!(t.active());
    t.remove_object(30);
    assert!(!t.active());
}
