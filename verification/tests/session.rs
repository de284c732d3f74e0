use wado_compositor::conf::{EncoderBackend, EncoderConfig, KeyframeMode, Preset};
use wado_compositor::error::CompositorError;
use wado_compositor::geometry::{Point, Rectangle, Size};
use wado_compositor::placement::{PendingPlacements, Placement};
use wado_compositor::select::Tier;
use wado_compositor::session::{shape_changed, SessionState, NO_SESSION_TO_RECONFIGURE};
use wado_compositor::viewer::ViewerState;

fn config(width: u32, height: u32, fps: u32, bitrate_kbps: u32) -> EncoderConfig {
    EncoderConfig {
        width,
        height,
        fps,
        bitrate_kbps,
        keyframe_interval: 120,
        preset: Preset::Ultrafast,
        backend: EncoderBackend::Auto,
        zero_latency: true,
        keyframe_mode: KeyframeMode::OnDemand,
    }
}

#[test]
fn a_started_session_reports_the_configured_rate() {
    let mut s = SessionState::new();
    let mut v = ViewerState::new();
    let ec = config(1920, 1080, 60, 9000);
    let r = s.start(&mut v, ec, Ok(()), Ok(Tier::VaapiDma.report(KeyframeMode::OnDemand))).expect("started");
    assert_eq!((r.bitrate_kbps, r.fps), (9000, 60));
    assert_eq!(r.pipeline, "vaapi-dmabuf");
    assert!(s.active());
    assert!(v.attached());
    assert_eq!(v.divisor(), 1);
    assert_eq!(s.config().map(|c| (c.width, c.height, c.fps)), Some((1920, 1080, 60)));
    let st = s.status().expect("a session runs");
    assert_eq!((st.bitrate_kbps, st.fps), (9000, 60));
}

#[test]
fn a_second_start_is_refused() {
    let mut s = SessionState::new();
    let mut v = ViewerState::new();
    let ec = config(1280, 720, 60, 4000);
    assert!(s.start(&mut v, ec, Ok(()), Ok(Tier::X264.report(KeyframeMode::Periodic))).is_ok());
    let again = s.start(&mut v, config(640, 480, 30, 1000), Ok(()), Ok(Tier::X264.report(KeyframeMode::Periodic)));
    assert!(matches!(again, Err(CompositorError::SessionAlreadyActive)));
    assert_eq!(s.config().map(|c| c.width), Some(1280));
}

#[test]
fn a_pipeline_that_cannot_be_built_leaves_no_session() {
    let mut s = SessionState::new();
    let mut v = ViewerState::new();
    let r = s.start(&mut v, config(1280, 720, 60, 4000), Ok(()), Err(CompositorError::Encoder(String::from("no device"))));
    match r {
        Err(CompositorError::Encoder(m)) => assert_eq!(m, "no device"),
        _ => panic!("the build error is the answer"),
    }
    assert!(!s.active());
    assert!(s.status().is_none());
}

#[test]
fn a_reconfigure_without_a_session_is_refused() {
    let mut s = SessionState::new();
    let mut v = ViewerState::new();
    let (r, act) = s.reconfigure(&mut v, config(1280, 720, 60, 4000), Ok(Tier::X264.report(KeyframeMode::Periodic)));
    assert_eq!(r.expect_err("no session").message(), NO_SESSION_TO_RECONFIGURE);
    assert!(act.is_none());
    assert!(!s.active());
    assert!(s.config().is_none());
}

#[test]
fn a_reconfigure_records_the_new_config_and_asks_for_a_keyframe() {
    let mut s = SessionState::new();
    let mut v = ViewerState::new();
    s.start(&mut v, config(1280, 720, 60, 4000), Ok(()), Ok(Tier::VaapiCpu.report(KeyframeMode::OnDemand))).expect("started");
    let (r, act) = s.reconfigure(&mut v, config(1920, 1080, 30, 9000), Ok(Tier::VaapiCpu.report(KeyframeMode::OnDemand)));
    let r = r.expect("rebuilt");
    assert_eq!((r.bitrate_kbps, r.fps), (9000, 30));
    let act = act.expect("the viewer is told");
    assert!(act.force_keyframe);
    assert_eq!(act.publish_divisor, Some(1));
    assert_eq!(s.config().map(|c| (c.width, c.fps)), Some((1920, 30)));
    assert_eq!(s.status().map(|st| st.fps), Some(30));
}

#[test]
fn a_failed_rebuild_keeps_the_old_config() {
    let mut s = SessionState::new();
    let mut v = ViewerState::new();
    s.start(&mut v, config(1280, 720, 60, 4000), Ok(()), Ok(Tier::X264.report(KeyframeMode::Periodic))).expect("started");
    let (r, act) = s.reconfigure(&mut v, config(1920, 1080, 30, 9000), Err(CompositorError::Encoder(String::from("busy"))));
    assert!(r.is_err());
    assert!(act.is_none());
    assert_eq!(s.config().map(|c| c.width), Some(1280));
    assert_eq!(s.status().map(|st| st.bitrate_kbps), Some(4000));
}

#[test]
fn stop_without_a_session_changes_nothing() {
    let mut s = SessionState::new();
    let mut pending = PendingPlacements::new();
    let mut cascade: u32 = 0;
    assert!(!s.stop(&mut pending, &mut cascade));
    assert!(!s.active());
    let mut v = ViewerState::new();
    s.start(&mut v, config(1280, 720, 60, 4000), Ok(()), Ok(Tier::X264.report(KeyframeMode::Periodic))).expect("started");
    assert!(s.stop(&mut pending, &mut cascade));
    assert!(!s.active());
    assert!(s.status().is_none());
    assert!(s.config().is_none());
}

#[test]
fn a_render_tick_counts_composites_and_always_sends_callbacks() {
    let mut s = SessionState::new();
    let mut v = ViewerState::new();
    // No session: nothing happens.
    let idle = s.render_tick(&mut v, true, true, 0);
    assert!(!idle.render && !idle.frame_callbacks);
    s.start(&mut v, config(1280, 720, 60, 4000), Ok(()), Ok(Tier::X264.report(KeyframeMode::Periodic))).expect("started");
    assert_eq!(s.frame_seq(), 0);
    let plan = s.render_tick(&mut v, true, true, 0);
    assert!(plan.render);
    assert!(plan.frame_callbacks);
    assert_eq!(plan.gap_change, None);
    assert_eq!(s.frame_seq(), 1);
    // No output yet: nothing happens.
    let none = s.render_tick(&mut v, false, true, 0);
    assert!(!none.frame_callbacks);
    assert_eq!(s.frame_seq(), 1);
}

#[test]
fn an_incomplete_pipeline_is_noted_once() {
    let mut s = SessionState::new();
    let mut v = ViewerState::new();
    s.start(&mut v, config(1280, 720, 60, 4000), Ok(()), Ok(Tier::X264.report(KeyframeMode::Periodic))).expect("started");
    let first = s.render_tick(&mut v, true, false, 0);
    assert_eq!(first.gap_change, Some(true));
    assert!(!first.render);
    assert!(first.frame_callbacks);
    let second = s.render_tick(&mut v, true, false, 0);
    assert_eq!(second.gap_change, None);
    let whole = s.render_tick(&mut v, true, true, 0);
    assert_eq!(whole.gap_change, Some(false));
    assert!(whole.render);
    assert_eq!(s.frame_seq(), 1);
}

#[test]
fn a_hidden_viewer_gets_no_composites_but_windows_keep_drawing() {
    let mut s = SessionState::new();
    let mut v = ViewerState::new();
    s.start(&mut v, config(1280, 720, 60, 4000), Ok(()), Ok(Tier::X264.report(KeyframeMode::Periodic))).expect("started");
    v.set_visible(false);
    let plan = s.render_tick(&mut v, true, true, 0);
    assert!(!plan.render);
    assert!(plan.frame_callbacks);
    assert_eq!(s.frame_seq(), 0);
}

#[test]
fn the_shape_changes_with_size_or_rate_only() {
    let a = config(1280, 720, 60, 4000);
    assert!(shape_changed(None, a));
    assert!(!shape_changed(Some(a), config(1280, 720, 60, 8000)));
    assert!(shape_changed(Some(a), config(1920, 720, 60, 4000)));
    assert!(shape_changed(Some(a), config(1280, 1080, 60, 4000)));
    assert!(shape_changed(Some(a), config(1280, 720, 30, 4000)));
}

#[test]
fn a_gpu_that_cannot_be_opened_changes_nothing() {
    let mut s = SessionState::new();
    let mut v = ViewerState::new();
    let r = s.start(
        &mut v,
        config(1280, 720, 60, 4000),
        Err(CompositorError::Renderer(String::from("no render node"))),
        Ok(Tier::X264.report(KeyframeMode::Periodic)),
    );
    assert_eq!(r.expect_err("no GPU").message(), "EGL/GLES setup failed: no render node");
    assert!(!s.active());
    // The viewer state is untouched: nobody was attached.
    assert!(!v.attached());
}

#[test]
fn stopping_forgets_pending_windows_and_restarts_the_cascade() {
    let output = Rectangle { loc: Point { x: 0, y: 0 }, size: Size { w: 1280, h: 720 } };
    let mut s = SessionState::new();
    let mut v = ViewerState::new();
    let mut pending = PendingPlacements::new();
    let mut cascade: u32 = 5;
    // Without a session nothing is forgotten.
    pending.add(3, &vec![]);
    assert!(!s.stop(&mut pending, &mut cascade));
    assert_eq!(cascade, 5);
    s.start(&mut v, config(1280, 720, 60, 4000), Ok(()), Ok(Tier::X264.report(KeyframeMode::Periodic))).expect("started");
    assert!(s.stop(&mut pending, &mut cascade));
    assert_eq!(cascade, 0);
    assert_eq!(pending.on_commit(3, Size { w: 100, h: 100 }, Some(output), Placement::Cascade, cascade), None);
}
