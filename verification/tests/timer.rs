use ntag_poll::timer::{TimerError, TimerWrapper, WaitStatus};

#[test]
fn not_armed_fails_fast() {
    let mut t = TimerWrapper::new();
    // A wait without a prior arm is a usage error and returns at once.
    assert_eq!(t.block_until_elapsed(), Err(TimerError::NotArmed));
}

#[test]
fn out_of_range_does_not_start_the_timer() {
    let mut t = TimerWrapper::new();
    let too_long = (u64::MAX as u128) + 1;
    assert_eq!(t.arm(too_long), Err(TimerError::OutOfRange));
    // The timer was not started: a wait still reports the usage error,
    // and time passing never raises the alarm.
    assert_eq!(t.block_until_elapsed(), Err(TimerError::NotArmed));
    t.tick(u64::MAX);
    assert!(!t.alarm_fired());
    assert_eq!(t.block_until_elapsed(), Err(TimerError::NotArmed));
}

#[test]
fn wait_completes_exactly_at_the_armed_duration() {
    let mut t = TimerWrapper::new();
    assert_eq!(t.arm(1000), Ok(()));
    t.tick(999);
    assert_eq!(t.block_until_elapsed(), Ok(WaitStatus::Pending));
    t.tick(1);
    assert_eq!(t.block_until_elapsed(), Ok(WaitStatus::Elapsed));
}

#[test]
fn simulated_clock_wait_is_never_early() {
    let mut t = TimerWrapper::new();
    assert_eq!(t.arm(50_000), Ok(()));
    let mut elapsed: u64 = 0;
    loop {
        match t.block_until_elapsed() {
            Ok(WaitStatus::Pending) => {
                assert!(elapsed < 50_000, "the wait should have completed by now");
                t.tick(7);
                elapsed += 7;
            }
            Ok(WaitStatus::Elapsed) => {
                assert!(elapsed >= 50_000, "the wait completed before the armed duration");
                break;
            }
            Err(e) => panic!("unexpected error {e:?}"),
        }
    }
}

#[test]
fn zero_duration_elapses_on_the_first_instant() {
    let mut t = TimerWrapper::new();
    assert_eq!(t.arm(0), Ok(()));
    assert_eq!(t.block_until_elapsed(), Ok(WaitStatus::Pending));
    t.tick(0);
    assert_eq!(t.block_until_elapsed(), Ok(WaitStatus::Elapsed));
}

#[test]
fn maximum_duration_is_representable() {
    let mut t = TimerWrapper::new();
    assert_eq!(t.arm(u64::MAX as u128), Ok(()));
    t.tick(u64::MAX - 1);
    assert_eq!(t.block_until_elapsed(), Ok(WaitStatus::Pending));
    t.tick(1);
    assert_eq!(t.block_until_elapsed(), Ok(WaitStatus::Elapsed));
}

#[test]
fn completed_wait_requires_a_fresh_arm() {
    let mut t = TimerWrapper::new();
    assert_eq!(t.arm(5), Ok(()));
    t.tick(5);
    assert_eq!(t.block_until_elapsed(), Ok(WaitStatus::Elapsed));
    // One arm buys one wait: asking again without re-arming is the usage error.
    assert_eq!(t.block_until_elapsed(), Err(TimerError::NotArmed));
}

#[test]
fn hundred_cycles_leave_no_residual_state() {
    let mut t = TimerWrapper::new();
    assert!(!t.is_armed());
    for round in 0..100u64 {
        let duration = 10 + round;
        assert_eq!(t.arm(duration as u128), Ok(()));
        assert!(t.is_armed());
        // The flag is down immediately after every arm: nothing leaks over
        // from the previous cycle's alarm.
        assert!(!t.alarm_fired());
        assert_eq!(t.block_until_elapsed(), Ok(WaitStatus::Pending));
        t.tick(duration - 1);
        assert_eq!(t.block_until_elapsed(), Ok(WaitStatus::Pending));
        t.tick(1);
        assert!(t.alarm_fired());
        assert_eq!(t.block_until_elapsed(), Ok(WaitStatus::Elapsed));
        assert!(!t.is_armed());
    }
}

#[test]
fn alarm_fires_only_once_per_arm() {
    let mut t = TimerWrapper::new();
    assert_eq!(t.arm(10), Ok(()));
    t.tick(10);
    assert!(t.alarm_fired());
    assert_eq!(t.block_until_elapsed(), Ok(WaitStatus::Elapsed));
    // Only a fresh arm revives the one-shot alarm, and it starts clear.
    assert_eq!(t.arm(10), Ok(()));
    assert!(!t.alarm_fired());
    t.tick(9);
    assert!(!t.alarm_fired());
    t.tick(1);
    assert!(t.alarm_fired());
}
