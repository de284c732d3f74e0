use wado_compositor::conf::KeyframeMode;
use wado_compositor::encoder_params::{
    gop_length, on_demand_gop, vaapi_rate_control, x264_keyframe_intervals, VaapiRateControl, ON_DEMAND_GOP_MAX,
};

#[test]
fn the_on_demand_gop_is_ten_seconds_but_bounded() {
    assert_eq!(on_demand_gop(30), 300);
    assert_eq!(on_demand_gop(120), ON_DEMAND_GOP_MAX);
    assert_eq!(on_demand_gop(121), ON_DEMAND_GOP_MAX);
    assert_eq!(on_demand_gop(0), 10);
}

#[test]
fn a_periodic_gop_is_the_configured_interval() {
    assert_eq!(gop_length(KeyframeMode::Periodic, 60, 120), 120);
    assert_eq!(gop_length(KeyframeMode::Periodic, 60, 0), 1);
    assert_eq!(gop_length(KeyframeMode::OnDemand, 60, 120), 600);
}

#[test]
fn x264_pins_periodic_cadence_and_frees_on_demand() {
    assert_eq!(x264_keyframe_intervals(KeyframeMode::Periodic, 60, 30), (30, 30));
    assert_eq!(x264_keyframe_intervals(KeyframeMode::OnDemand, 60, 30), (600, 1));
}

#[test]
fn vaapi_runs_cbr_at_the_requested_rate() {
    assert_eq!(
        vaapi_rate_control(60, 4000, 120, KeyframeMode::Periodic),
        VaapiRateControl {
            fps: 60,
            gop_size: 120,
            bit_rate: 4_000_000,
            rc_max_rate: 4_000_000,
            rc_min_rate: 4_000_000,
            rc_buffer_size: 4_000_000,
        }
    );
    let rc = vaapi_rate_control(0, 1000, 30, KeyframeMode::OnDemand);
    assert_eq!((rc.fps, rc.gop_size), (1, 10));
}
