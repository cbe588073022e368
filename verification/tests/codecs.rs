use gerbot::bool_string;
use gerbot::commands::format_duration;
use gerbot::iso_duration;

#[test]
fn duration_serialize_one_hour_two_minutes_three_seconds() {
    assert_eq!(iso_duration::serialize(3723), "PT1H2M3S");
}

#[test]
fn duration_parse_one_hour_two_minutes_three_seconds() {
    assert_eq!(iso_duration::deserialize("PT1H2M3S"), Ok(3723));
}

#[test]
fn duration_parse_zero() {
    assert_eq!(iso_duration::deserialize("PT0S"), Ok(0));
}

#[test]
fn duration_serialize_zero() {
    assert_eq!(iso_duration::serialize(0), "PT0S");
}

#[test]
fn duration_round_trip_samples() {
    for secs in [0u64, 1, 59, 60, 61, 3599, 3600, 3601, 3723, 86399, 86400, u64::MAX] {
        let rendered = iso_duration::serialize(secs);
        assert_eq!(iso_duration::deserialize(&rendered), Ok(secs));
    }
}

#[test]
fn duration_components_optional() {
    assert_eq!(iso_duration::deserialize("PT2H"), Ok(7200));
    assert_eq!(iso_duration::deserialize("PT45M"), Ok(2700));
    assert_eq!(iso_duration::deserialize("PT30S"), Ok(30));
    assert_eq!(iso_duration::deserialize("PT1H30S"), Ok(3630));
    assert_eq!(iso_duration::deserialize("PT"), Ok(0));
}

#[test]
fn duration_rejects_malformed() {
    assert!(iso_duration::deserialize("").is_err());
    assert!(iso_duration::deserialize("XYZ").is_err());
    assert!(iso_duration::deserialize("P1D").is_err());
    // a unit letter with no digits
    assert!(iso_duration::deserialize("PTH").is_err());
    // digits with no unit letter
    assert!(iso_duration::deserialize("PT5").is_err());
    // units out of order
    assert!(iso_duration::deserialize("PT1S2H").is_err());
    // a repeated unit
    assert!(iso_duration::deserialize("PT1H2H").is_err());
    // trailing garbage
    assert!(iso_duration::deserialize("PT1H!").is_err());
}

#[test]
fn duration_rejects_overflow() {
    assert!(iso_duration::deserialize("PT99999999999999999999999999H").is_err());
}

#[test]
fn bool_string_round_trip() {
    assert_eq!(bool_string::serialize(true), "true");
    assert_eq!(bool_string::serialize(false), "false");
    assert_eq!(bool_string::deserialize("true"), Ok(true));
    assert_eq!(bool_string::deserialize("false"), Ok(false));
    assert_eq!(
        bool_string::deserialize(&bool_string::serialize(true)),
        Ok(true)
    );
    assert_eq!(
        bool_string::deserialize(&bool_string::serialize(false)),
        Ok(false)
    );
}

#[test]
fn bool_string_rejects_other_strings() {
    assert!(bool_string::deserialize("True").is_err());
    assert!(bool_string::deserialize("1").is_err());
    assert!(bool_string::deserialize("").is_err());
}

#[test]
fn format_duration_clock_strings() {
    assert_eq!(format_duration(3723), "01:02:03");
    assert_eq!(format_duration(45), "00:45");
    assert_eq!(format_duration(125), "02:05");
    assert_eq!(format_duration(0), "00:00");
    assert_eq!(format_duration(3600), "01:00:00");
    assert_eq!(format_duration(86399), "23:59:59");
}
