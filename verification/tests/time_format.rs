use pipeprogress::stats::TimeOutput;
use pipeprogress::stats::{bytes_part_string, rate_part_string, u64_to_decimal};

#[test]
fn as_time_format() {
    let pairs = vec![
        (5_u64, "0:00:05"),
        (60_u64, "0:01:00"),
        (154_u64, "0:02:34"),
        (3603_u64, "1:00:03"),
    ];
    for (input, output) in pairs {
        assert_eq!(input.as_time().as_str(), output);
    }
}

#[test]
fn as_time_large_hours() {
    assert_eq!(360000_u64.as_time().as_str(), "100:00:00");
    assert_eq!(0_u64.as_time().as_str(), "0:00:00");
}

#[test]
fn decimal_rendering() {
    assert_eq!(u64_to_decimal(0).as_str(), "0");
    assert_eq!(u64_to_decimal(7).as_str(), "7");
    assert_eq!(u64_to_decimal(1048576).as_str(), "1048576");
    assert_eq!(u64_to_decimal(u64::MAX).as_str(), "18446744073709551615");
}

#[test]
fn progress_line_fields() {
    assert_eq!(bytes_part_string(1234).as_str(), "1234 ");
    assert_eq!(rate_part_string(42).as_str(), " [42b/s]");
}
