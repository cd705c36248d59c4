use timerrs::clock::{Clock, TimeOfDay};
use timerrs::duration::{Duration, MAX_NANOS};
use timerrs::timer::{Progress, Timer};

fn secs(n: u64) -> Duration {
    Duration::from_secs(n)
}

fn at_noon(name: Option<&str>, duration: Duration) -> Timer {
    Timer::started_at(name.map(|n| n.to_string()), duration, TimeOfDay::new(12, 0).unwrap())
}

#[test]
fn test_timer_initialization() {
    let duration = Duration::from_secs(10);
    let timer = Timer::new(Some("Test".to_string()), duration);
    assert_eq!(timer.name, Some("Test".to_string()));
    assert_eq!(timer.duration, duration);
    assert!(!timer.is_paused);
}

#[test]
fn new_timer_has_everything_left() {
    let timer = at_noon(None, secs(10));
    assert_eq!(timer.remaining_time_at(Duration::zero()), secs(10));
    assert!(!timer.is_finished_at(Duration::zero()));
    assert_eq!(timer.name, None);
    assert!(!timer.is_paused());
    assert_eq!(timer.duration(), secs(10));
    assert_eq!(timer.start_time(), TimeOfDay::new(12, 0).unwrap());
}

#[test]
fn remaining_time_counts_down_while_running() {
    let timer = at_noon(None, secs(10));
    assert_eq!(timer.remaining_time_at(secs(3)), secs(7));
    assert_eq!(timer.remaining_time_at(Duration::new(3, 250_000_000)), Duration::new(6, 750_000_000));
    assert_eq!(timer.remaining_time_at(secs(10)), Duration::zero());
}

#[test]
fn remaining_time_saturates_at_zero() {
    let timer = at_noon(None, secs(10));
    assert_eq!(timer.remaining_time_at(secs(11)), Duration::zero());
    assert_eq!(timer.remaining_time_at(secs(1_000_000)), Duration::zero());
    assert!(timer.is_finished_at(secs(11)));
}

#[test]
fn remaining_time_never_increases() {
    let mut timer = at_noon(None, secs(100));
    let mut last = timer.remaining_time_at(Duration::zero());
    let mut now = 0u64;
    for step in 0..60u64 {
        now += step % 4;
        if step % 7 == 3 {
            timer.toggle_pause_at(secs(now));
        }
        let left = timer.remaining_time_at(secs(now));
        assert!(left <= last, "at step {}", step);
        assert!(left <= secs(100));
        last = left;
    }
}

#[test]
fn remaining_time_stands_still_while_paused() {
    let mut timer = at_noon(None, secs(10));
    timer.toggle_pause_at(secs(4));
    assert!(timer.is_paused);
    assert_eq!(timer.remaining_time_at(secs(4)), secs(6));
    assert_eq!(timer.remaining_time_at(secs(400)), secs(6));
    assert_eq!(timer.remaining_time_at(Duration::zero()), secs(6));
}

#[test]
fn resuming_does_not_rewind() {
    let mut timer = at_noon(None, secs(10));
    timer.toggle_pause_at(secs(4));
    timer.toggle_pause_at(secs(100));
    assert!(!timer.is_paused);
    assert_eq!(timer.remaining_time_at(secs(100)), secs(6));
    assert_eq!(timer.remaining_time_at(secs(103)), secs(3));
    assert_eq!(timer.remaining_time_at(secs(106)), Duration::zero());
}

#[test]
fn toggle_flips_the_pause_each_time() {
    let mut timer = at_noon(None, secs(10));
    for round in 0..6u64 {
        let before = timer.is_paused;
        timer.toggle_pause_at(secs(round));
        assert_eq!(timer.is_paused, !before);
    }
}

#[test]
fn toggling_twice_at_one_moment_keeps_the_time_left() {
    let mut running = at_noon(None, secs(10));
    let before = running.remaining_time_at(secs(3));
    running.toggle_pause_at(secs(3));
    running.toggle_pause_at(secs(3));
    assert!(!running.is_paused);
    assert_eq!(running.remaining_time_at(secs(3)), before);

    let mut paused = at_noon(None, secs(10));
    paused.toggle_pause_at(secs(2));
    let before = paused.remaining_time_at(secs(5));
    paused.toggle_pause_at(secs(5));
    paused.toggle_pause_at(secs(5));
    assert!(paused.is_paused);
    assert_eq!(paused.remaining_time_at(secs(5)), before);
}

#[test]
fn toggling_twice_loses_no_more_than_the_time_between() {
    let mut timer = at_noon(None, secs(10));
    timer.toggle_pause_at(secs(2));
    let before = timer.remaining_time_at(secs(5));
    timer.toggle_pause_at(secs(5));
    timer.toggle_pause_at(Duration::new(5, 1_000_000));
    let after = timer.remaining_time_at(Duration::new(5, 1_000_000));
    assert_eq!(before, secs(8));
    assert_eq!(after, Duration::new(7, 999_000_000));
}

#[test]
fn a_reading_before_the_segment_began_counts_as_nothing() {
    let mut timer = at_noon(None, secs(10));
    timer.toggle_pause_at(secs(4));
    timer.toggle_pause_at(secs(20));
    assert_eq!(timer.remaining_time_at(secs(15)), secs(6));
    timer.toggle_pause_at(secs(15));
    assert_eq!(timer.remaining_time_at(secs(15)), secs(6));
}

#[test]
fn zero_duration_timer_is_finished_at_once() {
    let timer = Timer::new(None, Duration::zero());
    assert!(timer.is_finished());
    assert!(timer.remaining_time().is_zero());
    assert!(timer.progress().is_complete());
    assert_eq!(timer.progress().percent(), 100);
    let fixed = at_noon(None, Duration::zero());
    assert!(fixed.is_finished_at(Duration::zero()));
    assert_eq!(fixed.progress_at(Duration::zero()), Progress::complete());
}

#[test]
fn progress_is_a_fraction_of_the_target() {
    let timer = at_noon(None, secs(10));
    let start = timer.progress_at(Duration::zero());
    assert_eq!(start.numerator(), 0);
    assert_eq!(start.denominator(), 10_000_000_000);
    assert_eq!(start.percent(), 0);
    assert!(!start.is_complete());
    let middle = timer.progress_at(Duration::new(2, 500_000_000));
    assert_eq!(middle.numerator(), 2_500_000_000);
    assert_eq!(middle.percent(), 25);
    assert_eq!(middle.scale(40), 10);
    assert_eq!(middle.scale(71), 17);
    let third = timer.progress_at(Duration::new(3, 333_333_333));
    assert_eq!(third.percent(), 33);
    let nearly = timer.progress_at(Duration::new(9, 999_999_999));
    assert_eq!(nearly.percent(), 99);
    assert_eq!(nearly.scale(40), 39);
    assert!(!nearly.is_complete());
}

#[test]
fn progress_is_one_exactly_when_nothing_is_left() {
    let timer = at_noon(None, secs(10));
    for tenth in 0..150u64 {
        let now = Duration::from_millis(tenth * 100);
        let progress = timer.progress_at(now);
        let left = timer.remaining_time_at(now);
        assert!(progress.numerator() <= progress.denominator());
        assert!(progress.denominator() > 0);
        assert_eq!(progress.is_complete(), left.is_zero());
        let fraction = progress.numerator() as f64 / progress.denominator() as f64;
        assert!((0.0..=1.0).contains(&fraction));
        assert_eq!(fraction == 1.0, left.is_zero());
    }
    let done = timer.progress_at(secs(12));
    assert!(done.is_complete());
    assert_eq!(done.percent(), 100);
    assert_eq!(done.scale(40), 40);
}

#[test]
fn progress_of_the_longest_timer_does_not_overflow() {
    let longest = Duration::new(u64::MAX, 999_999_999);
    assert_eq!(longest.as_nanos(), MAX_NANOS);
    let timer = at_noon(None, longest);
    let progress = timer.progress_at(longest);
    assert!(progress.is_complete());
    assert_eq!(progress.scale(0xffff_ffff), 0xffff_ffff);
    let half = timer.progress_at(Duration::new(u64::MAX / 2, 0));
    assert_eq!(half.percent(), 49);
}

#[test]
fn pausing_keeps_time_up_to_the_longest_span() {
    let longest = Duration::new(u64::MAX, 999_999_999);
    let mut timer = at_noon(None, secs(10));
    timer.toggle_pause_at(longest);
    timer.toggle_pause_at(Duration::zero());
    timer.toggle_pause_at(longest);
    assert!(timer.is_paused);
    assert_eq!(timer.remaining_time_at(Duration::zero()), Duration::zero());
}

#[test]
fn live_timer_reads_its_own_clock() {
    let mut timer = Timer::new(Some("Live".to_string()), secs(3600));
    let first = timer.remaining_time();
    let second = timer.remaining_time();
    assert!(second <= first);
    assert!(first <= secs(3600));
    assert!(!timer.is_finished());
    timer.toggle_pause();
    assert!(timer.is_paused);
    let held = timer.remaining_time();
    assert_eq!(timer.remaining_time(), held);
    assert_eq!(timer.progress(), timer.progress());
    timer.toggle_pause();
    assert!(!timer.is_paused);
    assert!(timer.remaining_time() <= held);
}

#[test]
fn clock_readings_do_not_go_back() {
    let clock = Clock::start();
    let mut last = clock.now();
    for _ in 0..1000 {
        let now = clock.now();
        assert!(now >= last);
        last = now;
    }
    assert!(last < Duration::from_secs(3600));
}

#[test]
fn timer_now_is_a_reading_of_its_clock() {
    let timer = Timer::new(None, secs(1));
    let first = timer.now();
    let second = timer.now();
    assert!(first <= second);
}
