use executor::admission::{Admission, RateLimiter, COOLDOWN_MESSAGE};

const A: (u128, u16) = (0xffff_c0a8_000e, 8080);
const B: (u128, u16) = (0xffff_c0a8_000f, 8080);

#[test]
fn second_submission_in_window_is_rejected() {
    let mut limiter = RateLimiter::new(100, 2000);
    assert_eq!(limiter.try_admit(Some(A), 10_000), Admission::Allowed);
    assert_eq!(limiter.try_admit(Some(A), 10_500), Admission::Cooldown);
    assert_eq!(limiter.try_admit(Some(A), 11_999), Admission::Cooldown);
    // the rejection recorded nothing: the window still runs from the first
    assert_eq!(limiter.try_admit(Some(A), 12_000), Admission::Allowed);
    assert_eq!(limiter.try_admit(Some(A), 12_001), Admission::Cooldown);
}

#[test]
fn clients_are_limited_separately() {
    let mut limiter = RateLimiter::new(100, 2000);
    assert_eq!(limiter.try_admit(Some(A), 0), Admission::Allowed);
    assert_eq!(limiter.try_admit(Some(B), 1), Admission::Allowed);
    assert_eq!(limiter.try_admit(Some(B), 2), Admission::Cooldown);
}

#[test]
fn missing_identity_is_rejected() {
    let mut limiter = RateLimiter::new(1, 2000);
    assert_eq!(limiter.try_admit(None, 0), Admission::NoIdentity);
    assert_eq!(limiter.try_admit(Some(A), 0), Admission::Allowed);
}

#[test]
fn eviction_makes_a_client_eligible_early() {
    let mut limiter = RateLimiter::new(1, 2000);
    assert_eq!(limiter.try_admit(Some(A), 0), Admission::Allowed);
    assert_eq!(limiter.try_admit(Some(B), 1), Admission::Allowed);
    assert_eq!(limiter.try_admit(Some(A), 2), Admission::Allowed);
}

#[test]
fn clock_going_back_counts_as_no_time() {
    let mut limiter = RateLimiter::new(4, 2000);
    assert_eq!(limiter.try_admit(Some(A), 5000), Admission::Allowed);
    assert_eq!(limiter.try_admit(Some(A), 100), Admission::Cooldown);
}

#[test]
fn cooldown_message_text() {
    assert_eq!(COOLDOWN_MESSAGE, "Code ran too soon. Please wait a little.");
}
