use wado_compositor::control::{
    admission, frame_interval_ns, running_commands, Admission, Request, ALREADY_ACTIVE,
};

#[test]
fn a_start_is_refused_while_a_session_runs() {
    assert_eq!(admission(Request::Start, true), Admission::AlreadyActive);
    assert_eq!(admission(Request::Start, false), Admission::Proceed);
    assert_eq!(ALREADY_ACTIVE, "a session is already active");
}

#[test]
fn session_requests_without_a_session_get_the_empty_answer() {
    for r in [Request::Reconfigure, Request::Status, Request::Launch, Request::RunningApps, Request::Window] {
        assert_eq!(admission(r, false), Admission::NoSession);
        assert_eq!(admission(r, true), Admission::Proceed);
    }
}

#[test]
fn everything_else_goes_ahead_either_way() {
    for r in [
        Request::Stop,
        Request::ForceKeyframe,
        Request::ViewerStrain,
        Request::ViewerAttached,
        Request::ViewerVisible,
    ] {
        assert_eq!(admission(r, false), Admission::Proceed);
        assert_eq!(admission(r, true), Admission::Proceed);
    }
}

#[test]
fn the_frame_interval_follows_the_rate() {
    assert_eq!(frame_interval_ns(60), 16_666_666);
    assert_eq!(frame_interval_ns(1), 1_000_000_000);
    assert_eq!(frame_interval_ns(0), 1_000_000_000);
    assert_eq!(frame_interval_ns(120), 8_333_333);
}

#[test]
fn exited_applications_are_not_reported_as_running() {
    let commands = vec!["foot".to_string(), "chromium".to_string(), "firefox".to_string()];
    let running = running_commands(&commands, &vec![false, true, false]);
    assert_eq!(running, vec!["foot".to_string(), "firefox".to_string()]);
    assert!(running_commands(&commands, &vec![true, true, true]).is_empty());
    assert_eq!(running_commands(&commands, &vec![false, false, false]), commands);
}
