use circuitbreaker_rs::strategy::percentage::{is_ratio_reached, PercentageStrategy};
use circuitbreaker_rs::strategy::{CircuitStatus, Strategy};

#[test]
fn percentage_test_allow_request_with_closed_circuit() {
    let mut strategy = PercentageStrategy::new(1, 2, 10000);
    assert!(strategy.allow_request());
}

#[test]
fn percentage_test_allow_request_with_open_circuit() {
    let mut strategy = PercentageStrategy::new(1, 2, 10000);
    for _ in 0..10 {
        strategy.failure();
    }

    assert_eq!(false, strategy.allow_request());
}

#[test]
fn percentage_test_allow_request_with_half_open_circuit() {
    let mut strategy = PercentageStrategy::new(1, 2, 100);
    for _ in 0..10 {
        strategy.failure();
    }

    // One second after the circuit opened, 1000 milliseconds have passed.
    let opened_at: i64 = strategy.start_of_timeout().unwrap();

    assert!(strategy.allow_request_at(opened_at + 1));
    assert_eq!(CircuitStatus::HalfOpen, strategy.status());
}

#[test]
fn percentage_test_success() {
    let mut strategy = PercentageStrategy::new(1, 2, 10000);
    for _ in 0..10 {
        strategy.failure();
    }

    strategy.success();

    assert!(strategy.allow_request());
}

#[test]
fn percentage_test_open() {
    let mut strategy = PercentageStrategy::new(1, 2, 10000);
    strategy.open();

    assert_eq!(false, strategy.allow_request());
}

#[test]
fn percentage_test_close() {
    let mut strategy = PercentageStrategy::new(1, 2, 10000);
    strategy.open();
    assert_eq!(false, strategy.allow_request());
    strategy.close();
    assert!(strategy.allow_request());
}

#[test]
fn percentage_rejects_a_threshold_outside_zero_and_one() {
    // zero
    assert!(PercentageStrategy::try_new(0, 1, 10000).is_none());
    // one
    assert!(PercentageStrategy::try_new(1, 1, 10000).is_none());
    assert!(PercentageStrategy::try_new(10, 10, 10000).is_none());
    // more than one, and no fraction at all
    assert!(PercentageStrategy::try_new(3, 2, 10000).is_none());
    assert!(PercentageStrategy::try_new(0, 0, 10000).is_none());
    assert!(PercentageStrategy::try_new(1, 0, 10000).is_none());

    let made = PercentageStrategy::try_new(1, 2, 10000);
    assert!(made.is_some());
    let strategy = made.unwrap();
    assert_eq!((1, 2), strategy.threshold());
    assert_eq!(10000, strategy.timeout());
    assert_eq!(0, strategy.requests());
    assert_eq!(0, strategy.failures());
    assert_eq!(None, strategy.start_of_timeout());
    assert_eq!(CircuitStatus::Closed, strategy.status());
}

#[test]
fn percentage_ten_requests_ten_failures() {
    let mut strategy = PercentageStrategy::new(1, 2, 10000);
    for _ in 0..10 {
        assert!(strategy.allow_request_at(20));
    }
    for _ in 0..10 {
        strategy.failure_at(20);
    }
    assert_eq!(10, strategy.requests());
    assert_eq!(10, strategy.failures());
    assert_eq!(CircuitStatus::Open, strategy.status());
    assert_eq!(Some(20), strategy.start_of_timeout());
    assert_eq!(false, strategy.allow_request_at(20));
}

#[test]
fn percentage_opens_when_the_share_reaches_the_threshold() {
    let mut strategy = PercentageStrategy::new(1, 2, 10000);
    for _ in 0..10 {
        assert!(strategy.allow_request_at(20));
    }
    // 1/10 .. 4/10 are below one half.
    strategy.failure_at(21);
    strategy.failure_at(22);
    strategy.failure_at(23);
    strategy.failure_at(24);
    assert_eq!(4, strategy.failures());
    assert_eq!(CircuitStatus::Closed, strategy.status());
    assert_eq!(None, strategy.start_of_timeout());
    // 5/10 is one half.
    strategy.failure_at(25);
    assert_eq!(5, strategy.failures());
    assert_eq!(CircuitStatus::Open, strategy.status());
    assert_eq!(Some(25), strategy.start_of_timeout());
}

#[test]
fn percentage_counts_every_admission_check() {
    let mut strategy = PercentageStrategy::new(1, 4, 10000);
    strategy.open();
    assert_eq!(false, strategy.allow_request_at(1));
    assert_eq!(false, strategy.allow_request_at(2));
    assert_eq!(2, strategy.requests());
    strategy.close();
    assert!(strategy.allow_request_at(3));
    assert_eq!(3, strategy.requests());
    assert_eq!(0, strategy.failures());
}

#[test]
fn percentage_failure_without_a_request_opens() {
    let mut strategy = PercentageStrategy::new(999, 1000, 10000);
    strategy.failure_at(5);
    assert_eq!(0, strategy.requests());
    assert_eq!(1, strategy.failures());
    assert_eq!(CircuitStatus::Open, strategy.status());
    assert_eq!(Some(5), strategy.start_of_timeout());
}

#[test]
fn percentage_trial_after_the_timeout() {
    let mut strategy = PercentageStrategy::new(1, 2, 3000);
    assert!(strategy.allow_request_at(100));
    strategy.failure_at(100);
    assert_eq!(CircuitStatus::Open, strategy.status());
    assert_eq!(false, strategy.allow_request_at(102));
    assert_eq!(CircuitStatus::Open, strategy.status());
    assert!(strategy.allow_request_at(103));
    assert_eq!(CircuitStatus::HalfOpen, strategy.status());
    assert!(strategy.allow_request_at(103));
    assert_eq!(CircuitStatus::HalfOpen, strategy.status());
    assert_eq!(4, strategy.requests());

    // 2 failures out of 4 requests: one half, so the trial's failure reopens.
    strategy.failure_at(104);
    assert_eq!(CircuitStatus::Open, strategy.status());
    assert_eq!(Some(104), strategy.start_of_timeout());
    assert_eq!(false, strategy.allow_request_at(106));
    assert!(strategy.allow_request_at(107));

    strategy.success();
    assert_eq!(CircuitStatus::Closed, strategy.status());
    assert_eq!(0, strategy.requests());
    assert_eq!(0, strategy.failures());
    assert_eq!(None, strategy.start_of_timeout());
}

#[test]
fn percentage_trial_failure_below_the_threshold_reopens() {
    let mut strategy = PercentageStrategy::new(1, 2, 1000);
    assert!(strategy.allow_request_at(10));
    strategy.failure_at(10);
    assert_eq!(CircuitStatus::Open, strategy.status());
    // Refused checks count as requests: 1 + 3 + 1 = 5 requests.
    assert_eq!(false, strategy.allow_request_at(10));
    assert_eq!(false, strategy.allow_request_at(10));
    assert_eq!(false, strategy.allow_request_at(10));
    assert!(strategy.allow_request_at(11));
    assert_eq!(CircuitStatus::HalfOpen, strategy.status());
    assert_eq!(5, strategy.requests());
    // 2 failures out of 5 requests is below one half, and still the failed
    // trial opens the circuit.
    strategy.failure_at(12);
    assert_eq!(2, strategy.failures());
    assert_eq!(CircuitStatus::Open, strategy.status());
    assert_eq!(Some(12), strategy.start_of_timeout());
    assert_eq!(false, strategy.allow_request_at(12));
    assert!(strategy.allow_request_at(13));
}

#[test]
fn percentage_failure_below_the_threshold_leaves_a_closed_circuit() {
    let mut strategy = PercentageStrategy::new(1, 2, 1000);
    for _ in 0..5 {
        assert!(strategy.allow_request_at(10));
    }
    strategy.failure_at(12);
    strategy.failure_at(12);
    assert_eq!(2, strategy.failures());
    assert_eq!(CircuitStatus::Closed, strategy.status());
    assert_eq!(None, strategy.start_of_timeout());
    strategy.failure_at(13);
    assert_eq!(CircuitStatus::Open, strategy.status());
    assert_eq!(Some(13), strategy.start_of_timeout());
}

#[test]
fn percentage_success_twice_is_success_once() {
    let mut strategy = PercentageStrategy::new(1, 3, 10000);
    assert!(strategy.allow_request_at(1));
    strategy.failure_at(1);
    strategy.success();
    let once = strategy;
    strategy.success();
    assert_eq!(once.status(), strategy.status());
    assert_eq!(once.requests(), strategy.requests());
    assert_eq!(once.failures(), strategy.failures());
    assert_eq!(once.start_of_timeout(), strategy.start_of_timeout());
    assert_eq!(CircuitStatus::Closed, strategy.status());
    assert_eq!(0, strategy.requests());
    assert_eq!(0, strategy.failures());
    assert!(strategy.allow_request_at(2));
}

#[test]
fn percentage_manual_override_leaves_the_counters() {
    let mut strategy = PercentageStrategy::new(9, 10, 10000);
    assert!(strategy.allow_request_at(1));
    assert!(strategy.allow_request_at(1));
    strategy.failure_at(1);
    assert_eq!(CircuitStatus::Closed, strategy.status());
    strategy.open();
    assert_eq!(CircuitStatus::Open, strategy.status());
    assert_eq!(2, strategy.requests());
    assert_eq!(1, strategy.failures());
    assert_eq!(None, strategy.start_of_timeout());
    strategy.close();
    assert_eq!(CircuitStatus::Closed, strategy.status());
    assert_eq!(2, strategy.requests());
    assert_eq!(1, strategy.failures());
    strategy.reset();
    assert_eq!(CircuitStatus::Closed, strategy.status());
    assert_eq!(0, strategy.requests());
    assert_eq!(0, strategy.failures());
    assert_eq!((9, 10), strategy.threshold());
    assert_eq!(10000, strategy.timeout());
}

#[test]
fn percentage_failure_stamps_the_current_time() {
    let mut strategy = PercentageStrategy::new(1, 2, 10000);
    strategy.failure();
    let opened_at: i64 = strategy.start_of_timeout().unwrap();
    // The clock gives seconds since 1970: later than the year 2017.
    assert!(opened_at > 1_500_000_000);
}

#[test]
fn ratio_is_compared_without_rounding() {
    assert_eq!(true, is_ratio_reached(1, 2, 1, 2));
    assert_eq!(false, is_ratio_reached(1, 3, 1, 2));
    assert_eq!(true, is_ratio_reached(2, 3, 1, 2));
    assert_eq!(true, is_ratio_reached(1, 3, 1, 3));
    assert_eq!(false, is_ratio_reached(333, 1000, 1, 3));
    assert_eq!(true, is_ratio_reached(334, 1000, 1, 3));
    assert_eq!(true, is_ratio_reached(1, 0, 1, 2));
    assert_eq!(true, is_ratio_reached(0, 0, 1, 2));
    assert_eq!(false, is_ratio_reached(0, 1, 1, 2));
}

#[test]
fn ratio_check_does_not_overflow() {
    assert_eq!(true, is_ratio_reached(u32::MAX, u32::MAX, u64::MAX - 1, u64::MAX));
    assert_eq!(false, is_ratio_reached(u32::MAX - 1, u32::MAX, u64::MAX - 1, u64::MAX));
    assert_eq!(true, is_ratio_reached(1, u32::MAX, 1, u64::MAX));
    assert_eq!(false, is_ratio_reached(0, u32::MAX, 1, u64::MAX));
}
