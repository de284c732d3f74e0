use wado_compositor::conf::{
    parse_preset, to_encoder_config, EncoderBackend, EncoderPrefs, KeyframeMode, Preset, Quality, SessionConfig,
    SinkTarget, Tuning, WadoConfig,
};

fn session(quality: Quality) -> SessionConfig {
    SessionConfig {
        width: 1080,
        height: 2422,
        fps: 60,
        quality,
        keyframe_interval: None,
        preset: None,
        encoder: EncoderPrefs { backend: EncoderBackend::Auto },
        tuning: Tuning { zero_latency: false, keyframe_mode: KeyframeMode::Periodic },
    }
}

#[test]
fn presets_are_read_without_regard_to_case() {
    assert_eq!(parse_preset("VeryFast"), Preset::Veryfast);
    assert_eq!(parse_preset("medium"), Preset::Medium);
    assert_eq!(parse_preset("ultrafast"), Preset::Ultrafast);
    assert_eq!(parse_preset("warp speed"), Preset::Ultrafast);
}

#[test]
fn a_quality_preset_brings_its_bitrate_and_cadence() {
    let ec = to_encoder_config(&session(Quality::Reactivity));
    assert_eq!((ec.bitrate_kbps, ec.keyframe_interval, ec.preset), (5676, 60, Preset::Ultrafast));
    let ec = to_encoder_config(&session(Quality::Balanced));
    assert_eq!((ec.bitrate_kbps, ec.keyframe_interval, ec.preset), (11353, 120, Preset::Ultrafast));
    let ec = to_encoder_config(&session(Quality::Quality));
    assert_eq!((ec.bitrate_kbps, ec.keyframe_interval, ec.preset), (12000, 120, Preset::Veryfast));
    let ec = to_encoder_config(&session(Quality::Custom { bitrate_kbps: 1234 }));
    assert_eq!((ec.bitrate_kbps, ec.keyframe_interval), (1234, 120));
    assert_eq!((ec.width, ec.height, ec.fps), (1080, 2422, 60));
}

#[test]
fn explicit_settings_override_the_preset_and_zero_latency_forces_on_demand() {
    let mut s = session(Quality::Quality);
    s.keyframe_interval = Some(7);
    s.preset = Some("FASTER".to_string());
    s.tuning = Tuning { zero_latency: true, keyframe_mode: KeyframeMode::Periodic };
    s.fps = 0;
    let ec = to_encoder_config(&s);
    assert_eq!(ec.keyframe_interval, 7);
    assert_eq!(ec.preset, Preset::Faster);
    assert_eq!(ec.keyframe_mode, KeyframeMode::OnDemand);
    assert!(ec.zero_latency);
    assert_eq!(ec.fps, 1);
}

#[test]
fn the_standalone_defaults_are_720p60() {
    let c = WadoConfig::default();
    assert_eq!((c.encoder.width, c.encoder.height, c.encoder.fps), (1280, 720, 60));
    assert_eq!((c.encoder.bitrate_kbps, c.encoder.keyframe_interval), (4000, 30));
    assert_eq!(c.encoder.backend, EncoderBackend::Auto);
    assert!(matches!(c.output.sink, SinkTarget::File(ref p) if p == "captures/wado.h264"));
}

#[test]
fn a_preset_follows_the_pixel_count() {
    let mut s = session(Quality::Balanced);
    s.width = 1920;
    s.height = 1080;
    assert_eq!(to_encoder_config(&s).bitrate_kbps, 9000);
    s.width = 1280;
    s.height = 720;
    assert_eq!(to_encoder_config(&s).bitrate_kbps, 4000);
}
