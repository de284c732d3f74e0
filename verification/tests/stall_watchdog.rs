use wado_compositor::stall_watchdog::StallWatchdog;

#[test]
fn half_a_second_of_silence_is_a_stall() {
    let mut w = StallWatchdog::new(60);
    for _ in 0..29 {
        assert!(!w.tick(false));
    }
    assert!(w.tick(false));
    assert_eq!(w.consecutive_empty(), 30);
}

#[test]
fn a_packet_resets_the_count() {
    let mut w = StallWatchdog::new(60);
    for _ in 0..20 {
        w.tick(false);
    }
    assert!(!w.tick(true));
    assert_eq!(w.consecutive_empty(), 0);
    for _ in 0..5 {
        w.tick(false);
    }
    w.reset();
    assert_eq!(w.consecutive_empty(), 0);
}

#[test]
fn a_low_frame_rate_still_waits_ten_ticks() {
    let mut w = StallWatchdog::new(4);
    for _ in 0..9 {
        assert!(!w.tick(false));
    }
    assert!(w.tick(false));
}

#[test]
fn the_kth_empty_tick_stalls_exactly_at_the_threshold() {
    for fps in [1u32, 20, 30, 60, 144] {
        let limit = std::cmp::max(fps / 2, 10);
        let mut w = StallWatchdog::new(fps);
        for k in 1..=(limit + 3) {
            assert_eq!(w.tick(false), k >= limit, "fps {} tick {}", fps, k);
        }
    }
}

#[test]
fn after_a_reset_nine_ticks_stay_quiet() {
    let mut w = StallWatchdog::new(20);
    for _ in 0..40 {
        w.tick(false);
    }
    w.reset();
    for _ in 0..9 {
        assert!(!w.tick(false));
    }
    assert!(w.tick(false));
}

#[test]
fn the_count_is_the_empty_ticks_since_the_last_packet_or_reset() {
    let mut w = StallWatchdog::new(60);
    w.tick(false);
    w.tick(false);
    w.tick(true);
    w.tick(false);
    assert_eq!(w.consecutive_empty(), 1);
    w.tick(false);
    w.tick(false);
    assert_eq!(w.consecutive_empty(), 3);
    w.reset();
    w.tick(false);
    assert_eq!(w.consecutive_empty(), 1);
}
