use robot::clock::nanos_since_epoch;
use robot::modules::timer::{check_timer, Duration, Timer, TimerError};
use std::time::UNIX_EPOCH;

const SECOND: u128 = 1_000_000_000;

fn shows(timer: &Timer) -> String {
    format!("{:?}", timer)
}

#[test]
fn new_timer_is_armed() {
    let timer = Timer::new(Duration::Millis(5));
    assert!(!timer.is_ready());
    assert_eq!(shows(&timer), "Timer { duration: Millis(5), state: Wait }");
}

#[test]
fn first_update_starts_the_wait() {
    let mut timer = Timer::new(Duration::Secs(1));
    timer.update_at(7 * SECOND);
    assert!(!timer.is_ready());
    assert_eq!(
        shows(&timer),
        "Timer { duration: Secs(1), state: Waiting { time: 7000000000 } }"
    );
}

#[test]
fn full_cycle_in_millis() {
    let mut timer = Timer::new(Duration::Millis(5));
    timer.update_at(SECOND);
    timer.update_at(SECOND + 1);
    assert!(!timer.is_ready());
    timer.update_at(SECOND + 4_999_999);
    assert!(!timer.is_ready());
    assert_eq!(
        shows(&timer),
        "Timer { duration: Millis(5), state: Waiting { time: 1000000000 } }"
    );
    timer.update_at(SECOND + 5_000_000);
    assert!(timer.is_ready());
    assert_eq!(shows(&timer), "Timer { duration: Millis(5), state: Ready }");
    timer.update_at(SECOND + 5_000_001);
    assert!(!timer.is_ready());
    assert_eq!(shows(&timer), "Timer { duration: Millis(5), state: Wait }");
}

#[test]
fn start_is_not_refreshed_while_waiting() {
    let mut timer = Timer::new(Duration::Nanos(10));
    timer.update_at(100);
    timer.update_at(104);
    timer.update_at(108);
    assert!(!timer.is_ready());
    timer.update_at(110);
    assert!(timer.is_ready());
}

#[test]
fn micros_are_whole_micros() {
    let mut timer = Timer::new(Duration::Micros(3));
    timer.update_at(0);
    timer.update_at(2_999);
    assert!(!timer.is_ready());
    timer.update_at(3_000);
    assert!(timer.is_ready());
}

#[test]
fn nanos_are_exact() {
    let mut timer = Timer::new(Duration::Nanos(1));
    timer.update_at(41);
    timer.update_at(41);
    assert!(!timer.is_ready());
    timer.update_at(42);
    assert!(timer.is_ready());
}

#[test]
fn secs_are_whole_secs() {
    let mut timer = Timer::new(Duration::Secs(2));
    timer.update_at(5);
    timer.update_at(5 + 2 * SECOND - 1);
    assert!(!timer.is_ready());
    timer.update_at(5 + 2 * SECOND);
    assert!(timer.is_ready());
}

#[test]
fn has_elapsed_at_the_boundaries() {
    assert!(!Duration::Millis(1).has_elapsed(10, 1_000_009));
    assert!(Duration::Millis(1).has_elapsed(10, 1_000_010));
    assert!(!Duration::Micros(1).has_elapsed(10, 1_009));
    assert!(Duration::Micros(1).has_elapsed(10, 1_010));
    assert!(!Duration::Nanos(7).has_elapsed(10, 16));
    assert!(Duration::Nanos(7).has_elapsed(10, 17));
    assert!(!Duration::Secs(1).has_elapsed(10, SECOND + 9));
    assert!(Duration::Secs(1).has_elapsed(10, SECOND + 10));
    assert!(Duration::Secs(u64::MAX).has_elapsed(0, u64::MAX as u128 * SECOND));
    assert!(!Duration::Secs(u64::MAX).has_elapsed(0, u64::MAX as u128 * SECOND - 1));
    assert!(!Duration::Nanos(u128::MAX).has_elapsed(1, u128::MAX));
    assert!(Duration::Nanos(u128::MAX).has_elapsed(0, u128::MAX));
}

#[test]
fn zero_interval_is_due_at_once() {
    assert!(Duration::Millis(0).has_elapsed(5, 5));
    let mut timer = Timer::new(Duration::Secs(0));
    timer.update_at(9);
    assert!(!timer.is_ready());
    timer.update_at(9);
    assert!(timer.is_ready());
}

#[test]
fn a_reading_before_the_start_fails_the_update() {
    let mut timer = Timer::new(Duration::Nanos(0));
    assert_eq!(timer.update_with(Some(1_000)), Ok(()));
    assert!(timer.accepts(1_000));
    assert!(timer.accepts(1_001));
    assert!(!timer.accepts(999));
    assert_eq!(
        timer.update_with(Some(999)),
        Err(TimerError::ClockWentBack { start: 1_000, now: 999 })
    );
    assert!(!timer.is_ready());
    assert_eq!(
        shows(&timer),
        "Timer { duration: Nanos(0), state: Waiting { time: 1000 } }"
    );
    assert_eq!(timer.update_with(Some(1_000)), Ok(()));
    assert!(timer.is_ready());
}

#[test]
fn a_clock_without_reading_fails_the_update() {
    let mut timer = Timer::new(Duration::Nanos(0));
    assert_eq!(timer.update_with(None), Err(TimerError::BeforeEpoch));
    assert_eq!(shows(&timer), "Timer { duration: Nanos(0), state: Wait }");
    assert_eq!(timer.update_with(Some(7)), Ok(()));
    assert_eq!(timer.update_with(None), Err(TimerError::BeforeEpoch));
    assert_eq!(shows(&timer), "Timer { duration: Nanos(0), state: Waiting { time: 7 } }");
    assert_eq!(timer.update_with(Some(7)), Ok(()));
    assert!(timer.is_ready());
    // A ready timer goes back to Wait without a look at the clock.
    assert_eq!(timer.update_with(None), Ok(()));
    assert_eq!(shows(&timer), "Timer { duration: Nanos(0), state: Wait }");
}

#[test]
fn only_a_waiting_timer_refuses_a_time() {
    let mut timer = Timer::new(Duration::Secs(1));
    assert!(timer.accepts(0));
    timer.update_at(50);
    assert!(!timer.accepts(49));
    assert!(timer.accepts(50));
    timer.update_at(50 + SECOND);
    assert!(timer.is_ready());
    assert!(timer.accepts(0));
    timer.update_at(0);
    assert!(timer.accepts(0));
}

#[test]
fn ready_only_in_the_ready_state() {
    let mut timer = Timer::new(Duration::Nanos(0));
    let mut seen = Vec::new();
    for now in 0..6u128 {
        seen.push(timer.is_ready());
        timer.update_at(now);
    }
    assert_eq!(seen, vec![false, false, true, false, false, true]);
}

#[test]
fn update_reads_the_clock() {
    let mut timer = Timer::new(Duration::Nanos(0));
    assert_eq!(timer.update(), Ok(()));
    assert!(!timer.is_ready());
    let shown = shows(&timer);
    assert!(shown.starts_with("Timer { duration: Nanos(0), state: Waiting { time: "));
    let digits: String = shown.chars().filter(|c| c.is_ascii_digit()).collect();
    let time: u128 = digits[1..].parse().unwrap();
    // Later than 2020-01-01, in nanoseconds since the epoch.
    assert!(time > 1_577_836_800 * SECOND);
    assert_eq!(timer.update(), Ok(()));
    assert!(timer.is_ready());
    assert_eq!(timer.update(), Ok(()));
    assert_eq!(shows(&timer), "Timer { duration: Nanos(0), state: Wait }");
}

#[test]
fn update_waits_for_a_long_interval() {
    let mut timer = Timer::new(Duration::Secs(3600));
    assert_eq!(timer.update(), Ok(()));
    let started = shows(&timer);
    assert_eq!(timer.update(), Ok(()));
    assert_eq!(timer.update(), Ok(()));
    assert!(!timer.is_ready());
    assert_eq!(shows(&timer), started);
}

#[test]
fn poll_leaves_a_ready_timer_alone() {
    let mut timer = Timer::new(Duration::Nanos(0));
    timer.poll();
    timer.poll();
    assert!(timer.is_ready());
    timer.poll();
    timer.poll();
    assert!(timer.is_ready());
    assert_eq!(shows(&timer), "Timer { duration: Nanos(0), state: Ready }");
}

#[test]
fn check_without_a_timer_proceeds() {
    assert!(check_timer(None));
}

#[test]
fn check_on_a_waiting_timer_skips_and_keeps_it() {
    let mut timer = Timer::new(Duration::Secs(5));
    assert!(!check_timer(Some(&mut timer)));
    assert_eq!(shows(&timer), "Timer { duration: Secs(5), state: Wait }");
    timer.update_at(3);
    assert!(!check_timer(Some(&mut timer)));
    assert_eq!(
        shows(&timer),
        "Timer { duration: Secs(5), state: Waiting { time: 3 } }"
    );
}

#[test]
fn check_on_a_ready_timer_consumes_it() {
    let mut timer = Timer::new(Duration::Nanos(2));
    timer.update_at(1);
    timer.update_at(3);
    assert!(timer.is_ready());
    assert!(check_timer(Some(&mut timer)));
    assert!(!timer.is_ready());
    assert_eq!(shows(&timer), "Timer { duration: Nanos(2), state: Wait }");
    assert!(!check_timer(Some(&mut timer)));
}

#[test]
fn a_time_after_the_epoch_reads_as_its_nanoseconds() {
    assert_eq!(nanos_since_epoch(Ok(std::time::Duration::new(3, 7))), Some(3_000_000_007));
    assert_eq!(nanos_since_epoch(Ok(std::time::Duration::ZERO)), Some(0));
    assert_eq!(
        nanos_since_epoch(Ok(std::time::Duration::MAX)),
        Some(u64::MAX as u128 * SECOND + 999_999_999)
    );
    let later = UNIX_EPOCH + std::time::Duration::from_millis(1500);
    assert_eq!(nanos_since_epoch(later.duration_since(UNIX_EPOCH)), Some(1_500_000_000));
}

#[test]
fn a_time_before_the_epoch_gives_no_reading() {
    let earlier = UNIX_EPOCH - std::time::Duration::from_secs(5);
    let answer = earlier.duration_since(UNIX_EPOCH);
    assert!(answer.is_err());
    assert_eq!(nanos_since_epoch(answer), None);
}

#[test]
fn one_read_for_each_time_the_timer_became_ready() {
    let mut timer = Timer::new(Duration::Nanos(0));
    let mut due = 0;
    let mut read = 0;
    // true: a poll, at the time given; false: a check.
    let touches = [
        (true, 5),
        (true, 5),
        (false, 0),
        (false, 0),
        (true, 6),
        (true, 4),
        (true, 6),
        (true, 7),
        (false, 0),
        (true, 8),
        (false, 0),
    ];
    for (poll, now) in touches {
        if poll {
            let was_ready = timer.is_ready();
            if !was_ready {
                let _ = timer.update_with(Some(now));
            }
            if !was_ready && timer.is_ready() {
                due += 1;
            }
        } else if check_timer(Some(&mut timer)) {
            read += 1;
        }
    }
    assert_eq!(due, 2);
    assert_eq!(read, 2);
    assert!(!timer.is_ready());
}
