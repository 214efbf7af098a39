use distant_nvim::{settle, settle_after, Failure, Raced};

#[test]
fn completed_call_returns_its_own_success() {
    assert_eq!(settle(100, Raced::Completed(3u8)), Ok(3));
}

#[test]
fn completed_call_returns_its_own_failure_unchanged() {
    let outcome: Result<u8, String> = Err(String::from("no such file"));
    assert_eq!(settle(100, Raced::Completed(outcome.clone())), Ok(outcome));
}

#[test]
fn expired_call_times_out_with_its_limit() {
    assert_eq!(settle::<u8>(15000, Raced::Expired), Err(Failure::Timeout { millis: 15000 }));
}

#[test]
fn call_just_under_its_limit_succeeds() {
    assert_eq!(settle_after(100, 99, "done"), Ok("done"));
    assert_eq!(Raced::after(100, 99, 1u8), Raced::Completed(1));
    assert_eq!(Raced::after(100, 0, 1u8), Raced::Completed(1));
}

#[test]
fn call_at_or_over_its_limit_times_out() {
    assert_eq!(settle_after(100, 100, 1u8), Err(Failure::Timeout { millis: 100 }));
    assert_eq!(settle_after(100, 101, 1u8), Err(Failure::Timeout { millis: 100 }));
    assert_eq!(settle_after(100, u64::MAX, 1u8), Err(Failure::Timeout { millis: 100 }));
    assert_eq!(Raced::after(100, 100, 1u8), Raced::Expired);
}

#[test]
fn zero_limit_always_times_out() {
    assert_eq!(settle_after(0, 0, 1u8), Err(Failure::Timeout { millis: 0 }));
}

#[test]
fn largest_limit_admits_every_shorter_call() {
    assert_eq!(settle_after(u64::MAX, u64::MAX - 1, 1u8), Ok(1));
}

#[test]
fn failure_in_time_is_not_a_timeout() {
    let outcome: Result<u8, Failure> = Err(Failure::NotConnected { id: 4 });
    assert_eq!(settle_after(100, 5, outcome.clone()), Ok(outcome));
}
