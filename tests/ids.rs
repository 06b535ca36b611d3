use applesauce::ids::{decimal_string, new_session_id, next_stamp};

#[test]
fn session_id_has_prefix_and_decimal_stamp() {
    assert_eq!(new_session_id(0), "sess-0");
    assert_eq!(new_session_id(7), "sess-7");
    assert_eq!(new_session_id(1700000000123), "sess-1700000000123");
    assert_eq!(new_session_id(u64::MAX), "sess-18446744073709551615");
}

#[test]
fn decimal_string_has_no_leading_zeros() {
    assert_eq!(decimal_string(0), "0");
    assert_eq!(decimal_string(10), "10");
    assert_eq!(decimal_string(9876543210), "9876543210");
}

#[test]
fn next_stamp_takes_the_clock_when_it_moved_on() {
    assert_eq!(next_stamp(None, 500), Some(500));
    assert_eq!(next_stamp(Some(400), 500), Some(500));
}

#[test]
fn next_stamp_steps_past_the_last_when_the_clock_did_not_move() {
    assert_eq!(next_stamp(Some(500), 500), Some(501));
    assert_eq!(next_stamp(Some(900), 500), Some(901));
}

#[test]
fn next_stamp_runs_out_at_the_largest_stamp() {
    assert_eq!(next_stamp(Some(u64::MAX), 5), None);
    assert_eq!(next_stamp(Some(u64::MAX), u64::MAX), None);
}
