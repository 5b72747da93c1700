use rs_manifest_patcher::format::{eta_to_human_readable, format_duration};

#[test]
fn eta_of_zero_is_dashes() {
    assert_eq!(eta_to_human_readable(0), "--");
}

#[test]
fn eta_below_a_minute() {
    assert_eq!(eta_to_human_readable(30), "30s");
}

#[test]
fn eta_with_minutes() {
    assert_eq!(eta_to_human_readable(61), "1m01s");
}

#[test]
fn eta_with_hours() {
    assert_eq!(eta_to_human_readable(3661), "1h01m01s");
}

#[test]
fn eta_beyond_a_day_is_dashes() {
    assert_eq!(eta_to_human_readable(90000), "--");
}

#[test]
fn eta_of_exactly_a_day_is_shown() {
    assert_eq!(eta_to_human_readable(86400), "24h00m00s");
    assert_eq!(eta_to_human_readable(86401), "--");
}

#[test]
fn duration_is_written_for_any_length() {
    assert_eq!(format_duration(0), "0s");
    assert_eq!(format_duration(59), "59s");
    assert_eq!(format_duration(60), "1m00s");
    assert_eq!(format_duration(3599), "59m59s");
    assert_eq!(format_duration(3600), "1h00m00s");
    assert_eq!(format_duration(360000), "100h00m00s");
}
