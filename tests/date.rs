use openttd_admin::date::{Date, DateError, MAX_DAY, MAX_YEAR};

#[test]
fn to_ymd() {
    assert_eq!(Date::from_openttd_date(0).unwrap().to_ymd(), (0, 0, 1));
}

#[test]
fn from_ymd() {
    assert_eq!(
        Date::from_ymd(0, 0, 1).unwrap(),
        Date::from_openttd_date(0).unwrap()
    );
}

#[test]
fn day_count_of_first_day_is_zero() {
    assert_eq!(Date::from_ymd(0, 0, 1).unwrap().to_openttd_date(), 0);
}

#[test]
fn known_dates() {
    // Year 0 is a leap year: 366 days.
    assert_eq!(Date::from_ymd(1, 0, 1).unwrap().to_openttd_date(), 366);
    assert_eq!(Date::from_ymd(0, 1, 29).unwrap().to_openttd_date(), 59);
    assert_eq!(Date::from_ymd(0, 2, 1).unwrap().to_openttd_date(), 60);
    assert_eq!(Date::from_ymd(1, 2, 1).unwrap().to_openttd_date(), 366 + 59);
    // 1 January 1950, as counted by the game.
    assert_eq!(Date::from_ymd(1950, 0, 1).unwrap().to_openttd_date(), 712223);
    assert_eq!(
        Date::from_openttd_date(712223).unwrap().to_ymd(),
        (1950, 0, 1)
    );
}

#[test]
fn last_day() {
    let last = Date::from_openttd_date(MAX_DAY).unwrap();
    assert_eq!(last.to_ymd(), (MAX_YEAR, 11, 31));
    assert_eq!(Date::from_ymd(MAX_YEAR, 11, 31).unwrap(), last);
}

#[test]
fn ymd_round_trip_samples() {
    for days in [0u32, 1, 59, 60, 365, 366, 146096, 146097, 1_000_000, 999_999_999] {
        let (y, m, d) = Date::from_openttd_date(days).unwrap().to_ymd();
        assert_eq!(Date::from_ymd(y, m, d).unwrap().to_openttd_date(), days);
    }
}

#[test]
fn date_errors() {
    assert_eq!(
        Date::from_openttd_date(MAX_DAY + 1),
        Err(DateError::DateOutOfRange { date: MAX_DAY + 1 })
    );
    assert_eq!(
        Date::from_ymd(MAX_YEAR + 1, 0, 1),
        Err(DateError::YearOutOfRange { year: MAX_YEAR + 1 })
    );
    assert_eq!(
        Date::from_ymd(1, 12, 1),
        Err(DateError::MonthOutOfRange { month: 12 })
    );
    assert_eq!(
        Date::from_ymd(1, 1, 29),
        Err(DateError::DayOutOfRange { day: 29, month: 1, year: 1 })
    );
    assert_eq!(
        Date::from_ymd(1900, 1, 29),
        Err(DateError::DayOutOfRange { day: 29, month: 1, year: 1900 })
    );
    assert!(Date::from_ymd(2000, 1, 29).is_ok());
    assert_eq!(
        Date::from_ymd(1, 0, 0),
        Err(DateError::DayOutOfRange { day: 0, month: 0, year: 1 })
    );
}
