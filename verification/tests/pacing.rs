use wado_compositor::pacing::{next_deadline, TickStats, REPORT_INTERVAL_NS};

const MS: u64 = 1_000_000;

#[test]
fn the_first_tick_only_sets_the_baseline() {
    let mut s = TickStats::new(60);
    assert_eq!(s.tick_at(5 * MS), None);
}

#[test]
fn a_full_window_on_budget_is_not_behind() {
    let mut s = TickStats::new(2);
    assert_eq!(s.tick_at(0), None);
    assert_eq!(s.tick_at(500 * MS), None);
    assert_eq!(s.tick_at(400 * MS), None);
    assert_eq!(s.tick_at(900 * MS), None);
    let r = s.tick_at(1400 * MS).expect("four intervals close the window");
    assert_eq!(r.ticks, 4);
    assert_eq!(r.budget_ns, 500 * MS);
    assert_eq!(r.target_fps, 2);
    assert_eq!(r.max_ns, 500 * MS);
    // 500 + 0 (the clock went backwards: read as zero) + 500 + 500, over four.
    assert_eq!(r.mean_ns, 375 * MS);
    assert!(!r.behind);
}

#[test]
fn a_slow_loop_is_reported_behind() {
    let mut s = TickStats::new(60);
    let budget = 1_000_000_000 / 60;
    let mut now = 0;
    assert_eq!(s.tick_at(now), None);
    let mut report = None;
    for _ in 0..120 {
        now += budget * 2;
        if let Some(r) = s.tick_at(now) {
            report = Some(r);
            break;
        }
    }
    let r = report.expect("two seconds of wall clock close a window");
    assert!(r.behind);
    assert_eq!(r.mean_ns, budget * 2);
    assert!(r.ticks < 120);
}

#[test]
fn wall_clock_closes_a_window_that_has_not_filled() {
    let mut s = TickStats::new(1000);
    s.tick_at(0);
    assert_eq!(s.tick_at(REPORT_INTERVAL_NS - 1), None);
    let r = s.tick_at(REPORT_INTERVAL_NS).expect("the interval has passed");
    assert_eq!(r.ticks, 2);
}

#[test]
fn a_tick_on_the_clock_reports_eventually() {
    let mut s = TickStats::new(1);
    assert!(s.tick().is_none());
    s.tick();
    let r = s.tick().expect("a window of two intervals closes on the third tick");
    assert_eq!(r.ticks, 2);
    assert!(!r.behind);
    assert!(r.max_ns < REPORT_INTERVAL_NS);
}

#[test]
fn the_timer_keeps_its_phase_or_re_phases_from_now() {
    let period = 16 * MS;
    assert_eq!(next_deadline(100 * MS, 105 * MS, period), 116 * MS);
    assert_eq!(next_deadline(100 * MS, 116 * MS, period), 132 * MS);
    assert_eq!(next_deadline(100 * MS, 150 * MS, period), 166 * MS);
}
