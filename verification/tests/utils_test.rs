use escrow_service::utils::Utils;

#[test]
fn test_calculate_deadline() {
    let duration = 1000u64;

    // The current ledger time, as the external clock reports it
    let now = 5000u64;

    // Calculate the deadline
    let deadline = Utils::calculate_deadline(now, duration);

    // Verify the deadline is correctly calculated
    assert_eq!(deadline, 6000);
}

#[test]
fn test_is_past_deadline() {
    // The current ledger time, as the external clock reports it
    let now = 5000u64;

    // Test with a deadline in the past
    let past_deadline = 4000;
    assert!(Utils::is_past_deadline(now, past_deadline));

    // Test with a deadline in the future
    let future_deadline = 6000;
    assert!(!Utils::is_past_deadline(now, future_deadline));
}

#[test]
fn test_is_past_deadline_is_strict() {
    // A deadline equal to the current time is not yet past
    assert!(!Utils::is_past_deadline(5000, 5000));
}

#[test]
fn test_calculate_deadline_saturates() {
    // Near the top of the time range the deadline saturates instead of
    // wrapping
    assert_eq!(Utils::calculate_deadline(u64::MAX - 5, 10), u64::MAX);
    assert_eq!(Utils::calculate_deadline(u64::MAX, 0), u64::MAX);
    assert_eq!(Utils::calculate_deadline(u64::MAX - 5, 5), u64::MAX);
}
