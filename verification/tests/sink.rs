use std::time::Duration;
use wado_compositor::error::CompositorError;
use wado_compositor::sink::{frame_msg, ChannelSink, FrameSink};
use wado_compositor::virtual_input::VirtualInput;

#[test]
fn an_accepted_frame_reaches_the_pump_with_the_nominal_duration_first() {
    let (tx, mut rx) = tokio::sync::mpsc::channel(2);
    let mut sink = ChannelSink::new(tx, Duration::from_millis(16));
    assert!(sink.offer(&[0, 0, 0, 1, 0x65]));
    let msg = rx.try_recv().expect("the frame was queued");
    assert_eq!(msg.data, vec![0, 0, 0, 1, 0x65]);
    assert_eq!(msg.duration, Duration::from_millis(16));
    assert_eq!(sink.dropped(), 0);
}

#[test]
fn a_full_channel_counts_a_drop() {
    let (tx, mut rx) = tokio::sync::mpsc::channel(1);
    let mut sink = ChannelSink::new(tx, Duration::from_millis(16));
    sink.send(&[1]);
    assert!(!sink.offer(&[2]));
    sink.send(&[3]);
    assert_eq!(sink.dropped(), 2);
    assert_eq!(rx.try_recv().expect("the first frame").data, vec![1]);
    assert!(rx.try_recv().is_err());
    // Room again: the next frame is accepted.
    assert!(sink.offer(&[4]));
    assert_eq!(rx.try_recv().expect("the fourth frame").data, vec![4]);
}

#[test]
fn a_closed_channel_refuses_everything() {
    let (tx, rx) = tokio::sync::mpsc::channel(4);
    drop(rx);
    let mut sink = ChannelSink::new(tx, Duration::from_millis(16));
    assert!(!sink.offer(&[1]));
    assert_eq!(sink.dropped(), 1);
}

#[test]
fn errors_describe_themselves() {
    assert_eq!(CompositorError::Encoder("no node".to_string()).message(), "encoder build failed: no node");
    assert_eq!(CompositorError::SessionAlreadyActive.message(), "a session is already active");
    assert_eq!(CompositorError::NoActiveSession.message(), "no active session");
    assert_eq!(CompositorError::other("odd").message(), "odd");
    let io = std::io::Error::new(std::io::ErrorKind::Other, "disk on fire");
    assert_eq!(CompositorError::from(io).message(), "io error: disk on fire");
    assert!(matches!(CompositorError::from("x".to_string()), CompositorError::Other(ref m) if m == "x"));
    assert_eq!(
        CompositorError::renderer_err("bind", "no context").message(),
        "EGL/GLES setup failed: bind: no context"
    );
}

#[test]
fn a_virtual_input_can_be_made() {
    assert_eq!(VirtualInput::new(), VirtualInput);
}

#[test]
fn a_first_frame_covers_the_nominal_interval() {
    let now = std::time::Instant::now();
    let m = frame_msg(&[0, 0, 1, 0x41], now, None, Duration::from_millis(33));
    assert_eq!(m.data, vec![0, 0, 1, 0x41]);
    assert_eq!(m.duration, Duration::from_millis(33));
    assert_eq!(m.queued_at, now);
}

#[test]
fn a_later_frame_covers_the_time_since_the_last_one() {
    let before = std::time::Instant::now();
    let now = before + Duration::from_millis(50);
    let m = frame_msg(&[9], now, Some(before), Duration::from_millis(16));
    assert_eq!(m.duration, Duration::from_millis(50));
    assert_eq!(m.queued_at, now);
    // A clock reading before the last one gives no time at all.
    let back = frame_msg(&[9], before, Some(now), Duration::from_millis(16));
    assert_eq!(back.duration, Duration::ZERO);
}

#[test]
fn a_refused_frame_rolls_its_time_into_the_next() {
    let (tx, mut rx) = tokio::sync::mpsc::channel(1);
    let mut sink = ChannelSink::new(tx, Duration::from_millis(16));
    assert!(sink.offer(&[1]));
    let first = rx.try_recv().expect("the first frame");
    assert!(sink.offer(&[2]));
    assert!(!sink.offer(&[3]));
    let second = rx.try_recv().expect("the second frame");
    assert!(sink.offer(&[4]));
    let fourth = rx.try_recv().expect("the fourth frame");
    assert_eq!(fourth.duration, fourth.queued_at.saturating_duration_since(second.queued_at));
    assert_eq!(second.duration, second.queued_at.saturating_duration_since(first.queued_at));
    assert_eq!(sink.dropped(), 1);
}
