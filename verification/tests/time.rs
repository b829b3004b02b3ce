use chrono::DateTime;
use image_lab::time::{elapsed_seconds, seconds_elapsed, Stamp};

#[test]
fn whole_seconds_are_counted() {
    assert_eq!(elapsed_seconds("2024-05-01T10:00:00+00:00", "2024-05-01T10:01:05.9+00:00"), 65);
    assert_eq!(elapsed_seconds("2024-05-01T10:00:00.9Z", "2024-05-01T10:00:01.8Z"), 0);
    assert_eq!(elapsed_seconds("2024-05-01T23:59:59Z", "2024-05-02T00:00:01Z"), 2);
}

#[test]
fn time_zones_are_taken_into_account() {
    assert_eq!(elapsed_seconds("2024-05-01T10:00:00+08:00", "2024-05-01T02:00:10Z"), 10);
}

#[test]
fn no_time_runs_backwards() {
    assert_eq!(elapsed_seconds("2024-05-01T10:00:10Z", "2024-05-01T10:00:00Z"), 0);
    assert_eq!(elapsed_seconds("2024-05-01T10:00:00Z", "2024-05-01T10:00:00Z"), 0);
}

#[test]
fn what_is_no_time_took_no_time() {
    assert_eq!(elapsed_seconds("", "2024-05-01T10:00:00Z"), 0);
    assert_eq!(elapsed_seconds("2024-05-01T10:00:00Z", "yesterday"), 0);
    assert_eq!(elapsed_seconds("2024-02-30T10:00:00Z", "2024-05-01T10:00:00Z"), 0);
}

#[test]
fn leap_seconds_are_counted_as_chrono_counts_them() {
    let times = [
        "2016-12-31T23:59:59Z",
        "2016-12-31T23:59:59.7Z",
        "2016-12-31T23:59:60Z",
        "2016-12-31T23:59:60.6Z",
        "2017-01-01T00:00:00Z",
        "2017-01-01T00:00:00.5Z",
        "2016-12-31T22:59:60.2Z",
        "2016-12-31T12:00:00Z",
        "2015-06-30T23:59:60.9Z",
        "0000-01-01T00:00:00+23:59",
        "9999-12-31T23:59:60.9-23:59",
    ];
    for a in times {
        for b in times {
            let start = DateTime::parse_from_rfc3339(a).unwrap();
            let finish = DateTime::parse_from_rfc3339(b).unwrap();
            let expected = finish.signed_duration_since(start).to_std().map(|d| d.as_secs()).unwrap_or(0);
            assert_eq!(elapsed_seconds(a, b), expected, "{a} {b}");
        }
    }
    assert_eq!(elapsed_seconds("2016-12-31T23:59:60Z", "2017-01-01T00:00:00Z"), 0);
    assert_eq!(elapsed_seconds("2016-12-31T22:59:60Z", "2016-12-31T23:00:00Z"), 1);
    assert_eq!(elapsed_seconds("2016-12-31T22:59:60Z", "2016-12-31T23:59:60Z"), 3601);
}

#[test]
fn seconds_between_points_in_time() {
    let start = Stamp { day: 738_000, second: 86_399, nano: 500_000_000 };
    let finish = Stamp { day: 738_001, second: 1, nano: 400_000_000 };
    assert_eq!(seconds_elapsed(Some(start), Some(finish)), 1);
    assert_eq!(seconds_elapsed(Some(finish), Some(start)), 0);
    assert_eq!(seconds_elapsed(None, Some(start)), 0);
    assert_eq!(seconds_elapsed(Some(start), None), 0);
    let leap = Stamp { day: 738_000, second: 59, nano: 1_250_000_000 };
    assert_eq!(seconds_elapsed(Some(leap), Some(Stamp { day: 738_000, second: 60, nano: 250_000_000 })), 1);
}
