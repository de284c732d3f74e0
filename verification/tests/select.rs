use wado_compositor::conf::{EncoderBackend, EncoderMode, KeyframeMode};
use wado_compositor::error::CompositorError;
use wado_compositor::select::{chosen_tier, fallbacks, tiers_for, Tier, NO_TIER_AVAILABLE};

#[test]
fn the_ladder_goes_down_one_tier_at_a_time() {
    assert_eq!(Tier::VaapiDma.next(), Some(Tier::VaapiCpu));
    assert_eq!(Tier::VaapiCpu.next(), Some(Tier::X264));
    assert_eq!(Tier::X264.next(), None);
}

#[test]
fn each_preference_gets_its_tiers_best_first() {
    assert_eq!(tiers_for(EncoderBackend::Software, true), vec![Tier::X264]);
    assert_eq!(tiers_for(EncoderBackend::Hardware, true), vec![Tier::VaapiDma, Tier::VaapiCpu]);
    assert_eq!(tiers_for(EncoderBackend::Hardware, false), vec![Tier::VaapiCpu]);
    assert_eq!(tiers_for(EncoderBackend::Auto, true), vec![Tier::VaapiDma, Tier::VaapiCpu, Tier::X264]);
    assert_eq!(tiers_for(EncoderBackend::Auto, false), vec![Tier::VaapiCpu, Tier::X264]);
}

#[test]
fn a_runtime_failure_falls_back_down_the_whole_ladder() {
    assert_eq!(fallbacks(Tier::VaapiDma), vec![Tier::VaapiCpu, Tier::X264]);
    assert_eq!(fallbacks(Tier::VaapiCpu), vec![Tier::X264]);
    assert!(fallbacks(Tier::X264).is_empty());
}

#[test]
fn each_tier_reports_what_it_is() {
    let r = Tier::VaapiDma.report(KeyframeMode::OnDemand);
    assert_eq!(r.mode, EncoderMode::Hardware);
    assert_eq!((r.codec.as_str(), r.backend.as_str()), ("h264", "vaapi"));
    assert_eq!((r.pipeline.as_str(), r.keyframe.as_str()), ("vaapi-dmabuf", "on-demand"));
    let r = Tier::VaapiCpu.report(KeyframeMode::Periodic);
    assert_eq!((r.pipeline.as_str(), r.keyframe.as_str()), ("vaapi-cpu", "periodic"));
    let r = Tier::X264.report(KeyframeMode::Periodic);
    assert_eq!(r.mode, EncoderMode::Software);
    assert_eq!((r.backend.as_str(), r.pipeline.as_str()), ("x264", "x264-cpu"));
}

fn failed(why: &str) -> Result<(), CompositorError> {
    Err(CompositorError::Encoder(String::from(why)))
}

#[test]
fn the_first_tier_that_builds_wins() {
    let r = chosen_tier(vec![(Tier::VaapiDma, failed("no gbm")), (Tier::VaapiCpu, Ok(())), (Tier::X264, Ok(()))]);
    assert_eq!(r.expect("a tier built"), Tier::VaapiCpu);
    assert_eq!(chosen_tier(vec![(Tier::X264, Ok(()))]).expect("built"), Tier::X264);
}

#[test]
fn when_no_tier_builds_the_last_failure_is_the_answer() {
    let r = chosen_tier(vec![(Tier::VaapiDma, failed("first")), (Tier::VaapiCpu, failed("second"))]);
    assert_eq!(r.expect_err("nothing built").message(), "encoder build failed: second");
}

#[test]
fn with_no_tier_to_try_there_is_nothing_available() {
    let r = chosen_tier(vec![]);
    match r {
        Err(CompositorError::Encoder(m)) => assert_eq!(m, NO_TIER_AVAILABLE),
        _ => panic!("an encoder error"),
    }
    assert_eq!(NO_TIER_AVAILABLE, "no encoder tier available");
}
