use lance_conversion::clock::{Clock, SystemClock, now_ms, timestamp_from_millis};
use lance_conversion::lifecycle::StoreError;
use lance_conversion::text::{decimal_string, lower_hex_string, trim, trim_char, trim_end_char};

#[test]
fn numbers_are_written_in_decimal_and_hex() {
    assert_eq!(decimal_string(0), "0");
    assert_eq!(decimal_string(1234567890), "1234567890");
    assert_eq!(decimal_string(u64::MAX), u64::MAX.to_string());
    assert_eq!(lower_hex_string(0), "0");
    assert_eq!(lower_hex_string(255), "ff");
    assert_eq!(lower_hex_string(u64::MAX), format!("{:x}", u64::MAX));
}

#[test]
fn trimming_matches_std() {
    for text in ["  a b  ", "\u{3000}x\u{85}", "", "   ", "\tq\n"] {
        assert_eq!(trim(text), text.trim());
    }
    assert_eq!(trim_char("//a/b//", '/'), "a/b");
    assert_eq!(trim_end_char("http://h///", '/'), "http://h");
}

#[test]
fn clock_readings_become_timestamps() {
    assert_eq!(timestamp_from_millis(Ok(42)).unwrap(), 42);
    assert_eq!(
        timestamp_from_millis(Ok(u128::MAX)).unwrap_err(),
        StoreError::Worker("out of range integral type conversion attempted".to_owned())
    );
    assert_eq!(
        timestamp_from_millis(Err("second time provided was later than self".to_owned())).unwrap_err(),
        StoreError::Worker("second time provided was later than self".to_owned())
    );
    assert!(now_ms().unwrap() > 1_600_000_000_000);
    assert!(SystemClock.now_ms().unwrap() > 0);
}
