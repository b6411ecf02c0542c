use xcontest_feed::duration::{pretty_duration, pretty_parsed_duration};

#[test]
fn hours_and_minutes_are_humanized() {
    assert_eq!(pretty_duration("PT1H30M"), "1h 30m");
    assert_eq!(pretty_duration("PT2H15M"), "2h 15m");
    assert_eq!(pretty_duration("PT45S"), "45s");
    assert_eq!(pretty_duration("P1DT1H"), "1day 1h");
}

#[test]
fn unparseable_duration_is_zero() {
    assert_eq!(pretty_duration("not-a-duration"), "0s");
    assert_eq!(pretty_duration(""), "0s");
    assert_eq!(pretty_duration("P"), "0s");
}

#[test]
fn duration_with_years_or_months_is_zero() {
    assert_eq!(pretty_duration("P1Y"), "0s");
    assert_eq!(pretty_duration("P2M"), "0s");
}

#[test]
fn duration_out_of_range_is_zero() {
    assert_eq!(pretty_duration("PT-5S"), "0s");
    assert_eq!(pretty_duration("PT1e30S"), "0s");
}

#[test]
fn zero_duration_is_zero() {
    assert_eq!(pretty_duration("PT0S"), "0s");
}

#[test]
fn parsed_duration_is_humanized() {
    assert_eq!(pretty_parsed_duration(Some((9420, 0))), "2h 37m");
    assert_eq!(pretty_parsed_duration(Some((0, 32_000_000))), "32ms");
    assert_eq!(pretty_parsed_duration(Some((0, 0))), "0s");
    assert_eq!(pretty_parsed_duration(None), "0s");
}
