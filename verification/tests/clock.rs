use ndocker::clock::{normalize_timestamp, MAX_TIMESTAMP, MIN_TIMESTAMP};

#[test]
fn ordinary_timestamps_stay() {
    assert_eq!(normalize_timestamp(0), 0);
    assert_eq!(normalize_timestamp(1431648000), 1431648000);
    assert_eq!(normalize_timestamp(-1), -1);
    assert_eq!(normalize_timestamp(-86_400), -86_400);
}

#[test]
fn the_ends_of_the_calendar_stay() {
    assert_eq!(normalize_timestamp(MAX_TIMESTAMP), MAX_TIMESTAMP);
    assert_eq!(normalize_timestamp(MIN_TIMESTAMP), MIN_TIMESTAMP);
    assert_eq!(normalize_timestamp(MAX_TIMESTAMP - 1), MAX_TIMESTAMP - 1);
    assert_eq!(normalize_timestamp(MIN_TIMESTAMP + 1), MIN_TIMESTAMP + 1);
}

#[test]
fn timestamps_beyond_the_calendar_become_the_epoch() {
    assert_eq!(normalize_timestamp(MAX_TIMESTAMP + 1), 0);
    assert_eq!(normalize_timestamp(MIN_TIMESTAMP - 1), 0);
    assert_eq!(normalize_timestamp(i64::MAX), 0);
    assert_eq!(normalize_timestamp(i64::MIN), 0);
}

#[test]
fn the_range_is_the_calendars_own() {
    assert_eq!(MAX_TIMESTAMP, chrono::DateTime::<chrono::Utc>::MAX_UTC.timestamp());
    assert_eq!(MIN_TIMESTAMP, chrono::DateTime::<chrono::Utc>::MIN_UTC.timestamp());
    assert!(chrono::DateTime::from_timestamp(MAX_TIMESTAMP, 0).is_some());
    assert!(chrono::DateTime::from_timestamp(MAX_TIMESTAMP + 1, 0).is_none());
    assert!(chrono::DateTime::from_timestamp(MIN_TIMESTAMP, 0).is_some());
    assert!(chrono::DateTime::from_timestamp(MIN_TIMESTAMP - 1, 0).is_none());
}

#[test]
fn the_default_moment_is_the_epoch() {
    assert_eq!(chrono::DateTime::<chrono::Utc>::default().timestamp(), 0);
    let days = [-95_746_129i64, -1, 0, 1, 16_570, 95_745_399];
    for day in days {
        for second in [0i64, 1, 43_200, 86_399] {
            let seconds = (day - 719_163) * 86_400 + second;
            if (MIN_TIMESTAMP..=MAX_TIMESTAMP).contains(&seconds) {
                assert_eq!(normalize_timestamp(seconds), seconds);
            } else {
                assert_eq!(normalize_timestamp(seconds), 0);
            }
        }
    }
}
