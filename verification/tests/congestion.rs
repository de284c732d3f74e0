use wado_compositor::congestion::{
    decide, Congestion, Decision, Divisor, Reason, MAX_DIVISOR, PATIENCE_FACTOR, PATIENCE_MAX, RECOVER_WINDOWS,
    STRAIN_WINDOWS, WINDOW_TICKS,
};

/// `decide` with no strain.
fn drops(dropped: u64, divisor: u32, clean: u32) -> (u32, u32) {
    let d = decide(dropped, false, divisor, clean, 0, RECOVER_WINDOWS);
    (d.divisor, d.clean)
}

/// `decide` for the strain path, at whatever patience the caller is testing.
fn strainy(divisor: u32, clean: u32, strain: u32, patience: u32) -> Decision {
    decide(0, true, divisor, clean, strain, patience)
}

#[test]
fn a_reconnect_does_not_restore_the_full_frame_rate() {
    let mut c = Congestion::default();
    for _ in 0..(WINDOW_TICKS * STRAIN_WINDOWS * 2) {
        c.should_render(0, true);
    }
    let shed = c.divisor();
    assert!(shed > 1, "the setup must actually have shed something, got {shed}");
    c.reattach();
    assert_eq!(c.divisor(), shed, "a reconnect must keep the rate the decoder earned");
}

#[test]
fn a_reconnect_forgets_the_grudge_but_not_the_rate() {
    let mut c = Congestion::default();
    for _ in 0..(WINDOW_TICKS * STRAIN_WINDOWS * 4) {
        c.should_render(0, true);
    }
    let shed = c.divisor();
    c.reattach();
    assert_eq!(c.divisor(), shed);
    for _ in 0..(WINDOW_TICKS * (RECOVER_WINDOWS + 1)) {
        c.should_render(0, false);
    }
    assert!(c.divisor() < shed, "recovery should be possible again after a reattach");
}

#[test]
fn a_brand_new_session_still_starts_at_full_rate() {
    let mut c = Congestion::default();
    for _ in 0..(WINDOW_TICKS * STRAIN_WINDOWS * 2) {
        c.should_render(0, true);
    }
    assert!(c.divisor() > 1);
    c.reset();
    assert_eq!(c.divisor(), 1);
}

#[test]
fn a_clean_link_never_sheds() {
    let mut c = Congestion::default();
    for i in 0..(WINDOW_TICKS * 10) {
        assert!(c.should_render(0, false), "tick {i} was shed on a link with no drops");
    }
    assert_eq!(c.divisor(), 1);
}

#[test]
fn one_dropped_frame_halves_the_rate() {
    assert_eq!(drops(1, 1, 0), (2, 0));
    assert_eq!(drops(60, 2, 0), (4, 0));
}

#[test]
fn shedding_stops_at_the_floor() {
    assert_eq!(drops(60, 4, 0), (MAX_DIVISOR, 0));
    assert_eq!(drops(60, MAX_DIVISOR, 0), (MAX_DIVISOR, 0));
}

#[test]
fn recovery_is_slower_than_back_off() {
    assert_eq!(drops(0, 4, 0), (4, 1));
    assert_eq!(drops(0, 4, 1), (4, 2));
    assert_eq!(drops(0, 4, 2), (2, 0));
    assert_eq!(drops(0, 2, 0), (2, 1));
    assert_eq!(drops(0, 2, 2), (1, 0));
}

#[test]
fn a_drop_during_recovery_resets_the_credit() {
    assert_eq!(drops(1, 4, 2), (MAX_DIVISOR, 0));
}

#[test]
fn at_divisor_two_exactly_half_the_ticks_render() {
    let mut c = Congestion::default();
    for _ in 0..WINDOW_TICKS {
        c.should_render(0, false);
    }
    for _ in 0..WINDOW_TICKS {
        c.should_render(5, false);
    }
    assert_eq!(c.divisor(), 2);
    let rendered = (0..WINDOW_TICKS).filter(|_| c.should_render(5, false)).count();
    assert_eq!(rendered as u32, WINDOW_TICKS / 2);
}

#[test]
fn a_monotonic_counter_is_read_as_a_delta() {
    let mut c = Congestion::default();
    for _ in 0..WINDOW_TICKS {
        c.should_render(0, false);
    }
    for _ in 0..WINDOW_TICKS {
        c.should_render(100, false);
    }
    assert_eq!(c.divisor(), 2);
    for _ in 0..(WINDOW_TICKS * RECOVER_WINDOWS) {
        c.should_render(100, false);
    }
    assert_eq!(c.divisor(), 1, "a static counter was misread as ongoing congestion");
}

#[test]
fn strain_takes_several_windows_to_move_anything() {
    let mut d = strainy(1, 0, 0, RECOVER_WINDOWS);
    assert_eq!((d.divisor, d.strain), (1, 1));
    d = strainy(1, 0, d.strain, RECOVER_WINDOWS);
    assert_eq!((d.divisor, d.strain), (1, 2));
    d = strainy(1, 0, d.strain, RECOVER_WINDOWS);
    assert_eq!((d.divisor, d.strain), (2, 0), "the third strained window steps down");
}

#[test]
fn strain_blocks_recovery_without_stepping_down_again_immediately() {
    let d = strainy(2, 2, 0, RECOVER_WINDOWS);
    assert_eq!((d.divisor, d.clean), (2, 0));
}

#[test]
fn strain_stops_at_the_floor_like_drops_do() {
    let d = strainy(MAX_DIVISOR, 0, STRAIN_WINDOWS, RECOVER_WINDOWS);
    assert_eq!(d.divisor, MAX_DIVISOR);
}

#[test]
fn a_viewer_that_stops_complaining_recovers() {
    let mut c = Congestion::default();
    for _ in 0..(WINDOW_TICKS * STRAIN_WINDOWS) {
        c.should_render(0, true);
    }
    assert_eq!(c.divisor(), 2, "three strained windows should have stepped down once");
    for _ in 0..(WINDOW_TICKS * RECOVER_WINDOWS * PATIENCE_FACTOR) {
        c.should_render(0, false);
    }
    assert_eq!(c.divisor(), 1);
}

#[test]
fn each_strain_step_makes_the_next_probe_rarer() {
    let a = strainy(1, 0, STRAIN_WINDOWS - 1, RECOVER_WINDOWS);
    assert_eq!(a.divisor, 2);
    assert_eq!(a.patience, RECOVER_WINDOWS * PATIENCE_FACTOR);
    let b = strainy(2, 0, STRAIN_WINDOWS - 1, a.patience);
    assert_eq!(b.divisor, 4);
    assert_eq!(b.patience, RECOVER_WINDOWS * PATIENCE_FACTOR * PATIENCE_FACTOR);
    let mut p = b.patience;
    for _ in 0..10 {
        p = (p * PATIENCE_FACTOR).min(PATIENCE_MAX);
    }
    assert_eq!(p, PATIENCE_MAX);
}

#[test]
fn a_pump_drop_does_not_inflate_strain_patience() {
    let d = decide(9, false, 1, 0, 0, RECOVER_WINDOWS);
    assert_eq!((d.divisor, d.patience), (2, RECOVER_WINDOWS));
}

#[test]
fn drops_outrank_strain_and_are_attributed_as_such() {
    let d = decide(5, true, 1, 0, 0, RECOVER_WINDOWS);
    assert_eq!(d.divisor, 2);
    assert_eq!(d.reason, Reason::Drops);
    assert_eq!(d.strain, 1);
}

#[test]
fn patience_stops_growing_at_its_cap() {
    let d = strainy(1, 0, STRAIN_WINDOWS - 1, PATIENCE_MAX);
    assert_eq!(d.divisor, 2);
    assert_eq!(d.patience, PATIENCE_MAX);
    assert_eq!(d.reason, Reason::Strain);
}

#[test]
fn a_clean_window_at_full_rate_is_attributed_to_recovery() {
    let d = decide(0, false, 1, 0, 0, RECOVER_WINDOWS);
    assert_eq!((d.divisor, d.clean, d.reason), (1, 1, Reason::Recover));
}

#[test]
fn reasons_name_themselves() {
    assert_eq!(Reason::Drops.as_str(), "the pump could not take the frames we were making");
    assert_eq!(Reason::Strain.as_str(), "the viewer says its decoder is saturated");
    assert_eq!(Reason::Recover.as_str(), "clean windows — easing back toward full rate");
    assert_eq!(Divisor::one(), Divisor(1));
}

#[test]
fn nothing_changes_before_a_window_closes() {
    let mut c = Congestion::default();
    for _ in 0..(WINDOW_TICKS - 1) {
        assert!(c.should_render(50, false));
    }
    assert_eq!(c.divisor(), 1);
    c.should_render(50, false);
    assert_eq!(c.divisor(), 2);
}

#[test]
fn at_divisor_four_a_quarter_of_the_ticks_render() {
    let mut c = Congestion::default();
    for _ in 0..WINDOW_TICKS {
        c.should_render(1, false);
    }
    for _ in 0..WINDOW_TICKS {
        c.should_render(2, false);
    }
    assert_eq!(c.divisor(), 4);
    let rendered = (0..WINDOW_TICKS).filter(|_| c.should_render(3, false)).count();
    assert_eq!(rendered as u32, WINDOW_TICKS / 4);
}
