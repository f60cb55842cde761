use sextant::calendar::{CalendarDate, ClockTime, UtcDateTime, MAX_YEAR, MIN_YEAR};

fn is_leap_year(year: i64) -> bool {
    year.rem_euclid(4) == 0 && (year.rem_euclid(100) != 0 || year.rem_euclid(400) == 0)
}

fn days_in_month(year: i64, month: i64) -> i64 {
    match month {
        2 => {
            if is_leap_year(year) {
                29
            } else {
                28
            }
        }
        4 | 6 | 9 | 11 => 30,
        _ => 31,
    }
}

fn is_valid(year: i64, month: i64, day: i64) -> bool {
    MIN_YEAR as i64 <= year
        && year <= MAX_YEAR as i64
        && 1 <= month
        && month <= 12
        && 1 <= day
        && day <= days_in_month(year, month)
}

fn day_of_year(year: i64, month: i64, day: i64) -> i64 {
    let mut days = day;
    for earlier in 1..month {
        days += days_in_month(year, earlier);
    }
    days
}

fn day_number(year: i64, month: i64, day: i64) -> i64 {
    let before = year - 1;
    365 * before + before.div_euclid(4) - before.div_euclid(100) + before.div_euclid(400)
        + day_of_year(year, month, day)
        - 1
}

fn next(year: i64, month: i64, day: i64) -> (i64, i64, i64) {
    if day < days_in_month(year, month) {
        (year, month, day + 1)
    } else if month < 12 {
        (year, month + 1, 1)
    } else {
        (year + 1, 1, 1)
    }
}

fn previous(year: i64, month: i64, day: i64) -> (i64, i64, i64) {
    if day > 1 {
        (year, month, day - 1)
    } else if month > 1 {
        (year, month - 1, days_in_month(year, month - 1))
    } else {
        (year - 1, 12, 31)
    }
}

fn date(year: i32, month: u32, day: u32) -> CalendarDate {
    CalendarDate::new(year, month, day).unwrap()
}

fn time(hour: u32, minute: u32, second: u32) -> ClockTime {
    ClockTime::new(hour, minute, second).unwrap()
}

const YEARS: [i32; 22] = [
    MIN_YEAR,
    MIN_YEAR + 1,
    -100_000,
    -401,
    -400,
    -101,
    -100,
    -5,
    -4,
    -1,
    0,
    1,
    4,
    100,
    400,
    1900,
    2000,
    2022,
    2023,
    2024,
    MAX_YEAR - 1,
    MAX_YEAR,
];

#[test]
fn known_dates() {
    let day = date(2024, 10, 6);
    assert_eq!(day.year(), 2024);
    assert_eq!(day.month(), 10);
    assert_eq!(day.day(), 6);
    assert_eq!(day.ordinal(), 280);
    assert_eq!(date(2022, 2, 12).ordinal(), 43);
    assert_eq!(date(2024, 8, 17).ordinal(), 230);
    assert_eq!(date(2023, 1, 1).ordinal(), 1);
    assert_eq!(date(2023, 12, 31).ordinal(), 365);
    assert_eq!(date(2024, 12, 31).ordinal(), 366);
    assert_eq!(date(2015, 9, 8).ordinal(), 251);
    assert_eq!(date(-308, 3, 14).ordinal(), 74);
}

#[test]
fn days_that_do_not_exist() {
    assert_eq!(CalendarDate::new(2023, 2, 29), None);
    assert_eq!(CalendarDate::new(2023, 4, 31), None);
    assert_eq!(CalendarDate::new(1900, 2, 29), None);
    assert_eq!(CalendarDate::new(2023, 0, 1), None);
    assert_eq!(CalendarDate::new(2023, 13, 1), None);
    assert_eq!(CalendarDate::new(2023, 1, 0), None);
    assert_eq!(CalendarDate::new(2023, 1, 32), None);
    assert_eq!(CalendarDate::new(2023, u32::MAX, u32::MAX), None);
    assert!(CalendarDate::new(2024, 2, 29).is_some());
    assert!(CalendarDate::new(2000, 2, 29).is_some());
    assert!(CalendarDate::new(-4, 2, 29).is_some());
}

#[test]
fn years_out_of_range() {
    assert_eq!(CalendarDate::new(MAX_YEAR + 1, 1, 1), None);
    assert_eq!(CalendarDate::new(MIN_YEAR - 1, 12, 31), None);
    assert_eq!(CalendarDate::new(400_000, 1, 1), None);
    assert_eq!(CalendarDate::new(-400_000, 1, 1), None);
    assert_eq!(CalendarDate::new(i32::MAX, 1, 1), None);
    assert_eq!(CalendarDate::new(i32::MIN, 1, 1), None);
    assert!(CalendarDate::new(MAX_YEAR, 12, 31).is_some());
    assert!(CalendarDate::new(MIN_YEAR, 1, 1).is_some());
}

#[test]
fn every_day_of_chosen_years_has_its_place_in_the_year() {
    for year in YEARS.into_iter().chain([MIN_YEAR - 1, MAX_YEAR + 1]) {
        for month in 0..=13u32 {
            for day in 0..=32u32 {
                let made = CalendarDate::new(year, month, day);
                let valid = is_valid(year as i64, month as i64, day as i64);
                assert_eq!(made.is_some(), valid, "{year}-{month}-{day}");
                if let Some(made) = made {
                    assert_eq!((made.year(), made.month(), made.day()), (year, month, day));
                    assert_eq!(
                        made.ordinal() as i64,
                        day_of_year(year as i64, month as i64, day as i64),
                        "{year}-{month}-{day}"
                    );
                }
            }
        }
    }
}

#[test]
fn times_of_day() {
    let noon = time(12, 0, 0);
    assert_eq!(noon.seconds_since_midnight(), 43_200);
    let late = time(23, 59, 59);
    assert_eq!(late.seconds_since_midnight(), 86_399);
    assert_eq!((late.hour(), late.minute(), late.second()), (23, 59, 59));
    let early = time(0, 0, 0);
    assert_eq!(early.seconds_since_midnight(), 0);
    assert_eq!((early.hour(), early.minute(), early.second()), (0, 0, 0));
    let sight = time(13, 30, 22);
    assert_eq!(sight.seconds_since_midnight(), 13 * 3600 + 30 * 60 + 22);
    assert_eq!((sight.hour(), sight.minute(), sight.second()), (13, 30, 22));
}

#[test]
fn times_that_do_not_exist() {
    assert_eq!(ClockTime::new(24, 0, 0), None);
    assert_eq!(ClockTime::new(23, 60, 0), None);
    assert_eq!(ClockTime::new(23, 59, 60), None);
    assert_eq!(ClockTime::new(u32::MAX, u32::MAX, u32::MAX), None);
    assert_eq!(ClockTime::new(1_193_047, 0, 0), None);
}

#[test]
fn every_time_of_day_reads_back() {
    for hour in 0..24 {
        for minute in 0..60 {
            for second in [0, 1, 29, 58, 59] {
                let made = time(hour, minute, second);
                assert_eq!((made.hour(), made.minute(), made.second()), (hour, minute, second));
                assert_eq!(made.seconds_since_midnight(), hour * 3600 + minute * 60 + second);
            }
        }
    }
}

#[test]
fn instant_holds_date_and_time() {
    let instant = UtcDateTime::new(date(2024, 8, 17), time(11, 30, 22));
    assert_eq!(instant.date, date(2024, 8, 17));
    assert_eq!(instant.time, time(11, 30, 22));
}

#[test]
fn local_reading_east_of_utc() {
    let instant = UtcDateTime::from_local(date(2024, 8, 17), time(13, 30, 22), 2 * 3600);
    assert_eq!(instant, Some(UtcDateTime::new(date(2024, 8, 17), time(11, 30, 22))));
}

#[test]
fn local_reading_without_offset_is_unchanged() {
    let instant = UtcDateTime::from_local(date(2022, 2, 12), time(0, 0, 0), 0);
    assert_eq!(instant, Some(UtcDateTime::new(date(2022, 2, 12), time(0, 0, 0))));
}

#[test]
fn local_reading_crosses_midnight() {
    let back = UtcDateTime::from_local(date(2024, 3, 1), time(0, 30, 0), 3600);
    assert_eq!(back, Some(UtcDateTime::new(date(2024, 2, 29), time(23, 30, 0))));
    let back = UtcDateTime::from_local(date(2023, 3, 1), time(0, 30, 0), 3600);
    assert_eq!(back, Some(UtcDateTime::new(date(2023, 2, 28), time(23, 30, 0))));
    let back = UtcDateTime::from_local(date(2024, 1, 1), time(0, 0, 0), 1);
    assert_eq!(back, Some(UtcDateTime::new(date(2023, 12, 31), time(23, 59, 59))));
    let forth = UtcDateTime::from_local(date(2024, 2, 28), time(20, 0, 0), -5 * 3600);
    assert_eq!(forth, Some(UtcDateTime::new(date(2024, 2, 29), time(1, 0, 0))));
    let forth = UtcDateTime::from_local(date(2023, 12, 31), time(23, 59, 59), -1);
    assert_eq!(forth, Some(UtcDateTime::new(date(2024, 1, 1), time(0, 0, 0))));
    let forth = UtcDateTime::from_local(date(2024, 4, 30), time(12, 0, 0), -86_399);
    assert_eq!(forth, Some(UtcDateTime::new(date(2024, 5, 1), time(11, 59, 59))));
}

#[test]
fn offsets_of_a_day_or_more_are_refused() {
    let day = date(2024, 8, 17);
    let noon = time(12, 0, 0);
    assert_eq!(UtcDateTime::from_local(day, noon, 86_400), None);
    assert_eq!(UtcDateTime::from_local(day, noon, -86_400), None);
    assert_eq!(UtcDateTime::from_local(day, noon, i32::MAX), None);
    assert_eq!(UtcDateTime::from_local(day, noon, i32::MIN), None);
    assert!(UtcDateTime::from_local(day, noon, 86_399).is_some());
    assert!(UtcDateTime::from_local(day, noon, -86_399).is_some());
}

#[test]
fn instants_beyond_the_supported_years_are_refused() {
    let first = date(MIN_YEAR, 1, 1);
    let last = date(MAX_YEAR, 12, 31);
    assert_eq!(UtcDateTime::from_local(first, time(0, 0, 0), 1), None);
    assert_eq!(UtcDateTime::from_local(last, time(23, 59, 59), -1), None);
    assert_eq!(
        UtcDateTime::from_local(first, time(0, 0, 0), 0),
        Some(UtcDateTime::new(first, time(0, 0, 0)))
    );
    assert_eq!(
        UtcDateTime::from_local(last, time(23, 59, 59), 0),
        Some(UtcDateTime::new(last, time(23, 59, 59)))
    );
    assert_eq!(
        UtcDateTime::from_local(first, time(0, 0, 0), -1),
        Some(UtcDateTime::new(first, time(0, 0, 1)))
    );
}

#[test]
fn every_shift_lands_on_the_day_before_the_same_or_the_next() {
    let days = [(1, 1), (1, 31), (2, 28), (3, 1), (6, 30), (7, 1), (12, 31)];
    let clocks = [0u32, 1, 43_200, 86_398, 86_399];
    let offsets = [-86_399, -43_200, -3600, -1, 0, 1, 3600, 7200, 43_200, 86_399];
    for year in YEARS {
        for (month, day) in days {
            for seconds in clocks {
                for offset in offsets {
                    let clock = time(seconds / 3600, seconds / 60 % 60, seconds % 60);
                    let made = UtcDateTime::from_local(date(year, month, day), clock, offset);
                    let shifted = seconds as i64 - offset as i64;
                    let (y, m, d) = (year as i64, month as i64, day as i64);
                    let ((y, m, d), s) = if shifted < 0 {
                        (previous(y, m, d), shifted + 86_400)
                    } else if shifted >= 86_400 {
                        (next(y, m, d), shifted - 86_400)
                    } else {
                        ((y, m, d), shifted)
                    };
                    if is_valid(y, m, d) {
                        let made = made.unwrap();
                        assert_eq!(
                            (made.date.year() as i64, made.date.month() as i64, made.date.day() as i64),
                            (y, m, d)
                        );
                        assert_eq!(made.time.seconds_since_midnight() as i64, s);
                    } else {
                        assert_eq!(made, None);
                    }
                }
            }
        }
    }
}

#[test]
fn seconds_between_known_instants() {
    let sight = UtcDateTime::new(date(2024, 8, 17), time(11, 30, 22));
    let noon = UtcDateTime::new(date(2024, 8, 17), time(12, 4, 45));
    assert_eq!(noon.seconds_since(&sight), 2063);
    assert_eq!(sight.seconds_since(&noon), -2063);
    assert_eq!(sight.seconds_since(&sight), 0);
    let new_year = UtcDateTime::new(date(2025, 1, 1), time(0, 0, 0));
    let eve = UtcDateTime::new(date(2024, 12, 31), time(23, 59, 59));
    assert_eq!(new_year.seconds_since(&eve), 1);
    let epoch = UtcDateTime::new(date(1970, 1, 1), time(0, 0, 0));
    let later = UtcDateTime::new(date(2001, 9, 9), time(1, 46, 40));
    assert_eq!(later.seconds_since(&epoch), 1_000_000_000);
    let leap = UtcDateTime::new(date(2024, 3, 1), time(0, 0, 0));
    let before = UtcDateTime::new(date(2024, 2, 28), time(0, 0, 0));
    assert_eq!(leap.seconds_since(&before), 2 * 86_400);
}

#[test]
fn seconds_between_follow_the_count_of_days() {
    let days = [(1, 1), (2, 28), (3, 1), (7, 4), (12, 31)];
    let mut instants = Vec::new();
    for year in YEARS {
        for (month, day) in days {
            for seconds in [0u32, 40_000, 86_399] {
                instants.push((year, month, day, seconds));
            }
        }
    }
    for (index, &(y1, m1, d1, s1)) in instants.iter().enumerate() {
        for &(y2, m2, d2, s2) in instants.iter().skip(index % 7).step_by(7) {
            let later = UtcDateTime::new(date(y1, m1, d1), time(s1 / 3600, s1 / 60 % 60, s1 % 60));
            let earlier = UtcDateTime::new(date(y2, m2, d2), time(s2 / 3600, s2 / 60 % 60, s2 % 60));
            let days = day_number(y1 as i64, m1 as i64, d1 as i64)
                - day_number(y2 as i64, m2 as i64, d2 as i64);
            let expected = days * 86_400 + s1 as i64 - s2 as i64;
            assert_eq!(later.seconds_since(&earlier), expected);
        }
    }
}

#[test]
fn seconds_across_the_whole_range() {
    let first = UtcDateTime::new(date(MIN_YEAR, 1, 1), time(0, 0, 0));
    let last = UtcDateTime::new(date(MAX_YEAR, 12, 31), time(23, 59, 59));
    let days = day_number(MAX_YEAR as i64, 12, 31) - day_number(MIN_YEAR as i64, 1, 1);
    assert_eq!(last.seconds_since(&first), days * 86_400 + 86_399);
    assert_eq!(first.seconds_since(&last), -(days * 86_400 + 86_399));
}

#[test]
fn times_to_the_nanosecond() {
    let made = ClockTime::from_hms_nano(13, 30, 22, 500_000_000).unwrap();
    assert_eq!((made.hour(), made.minute(), made.second()), (13, 30, 22));
    assert_eq!(made.nanosecond(), 500_000_000);
    assert_eq!(made.seconds_since_midnight(), 13 * 3600 + 30 * 60 + 22);
    assert_eq!(time(13, 30, 22).nanosecond(), 0);
    assert_eq!(ClockTime::from_hms_nano(13, 30, 22, 0), Some(time(13, 30, 22)));
    assert!(made != time(13, 30, 22));
    let last = ClockTime::from_hms_nano(23, 59, 59, 999_999_999).unwrap();
    assert_eq!(last.nanosecond(), 999_999_999);
    assert_eq!(last.seconds_since_midnight(), 86_399);
}

#[test]
fn nanoseconds_of_a_second_or_more_are_refused() {
    assert_eq!(ClockTime::from_hms_nano(13, 30, 22, 1_000_000_000), None);
    assert_eq!(ClockTime::from_hms_nano(23, 59, 59, 1_000_000_000), None);
    assert_eq!(ClockTime::from_hms_nano(23, 59, 59, 1_999_999_999), None);
    assert_eq!(ClockTime::from_hms_nano(0, 0, 0, u32::MAX), None);
    assert_eq!(ClockTime::from_hms_nano(24, 0, 0, 0), None);
    assert_eq!(ClockTime::from_hms_nano(0, 60, 0, 0), None);
    assert_eq!(ClockTime::from_hms_nano(0, 0, 60, 0), None);
}

#[test]
fn a_shift_keeps_the_nanoseconds() {
    let reading = ClockTime::from_hms_nano(0, 30, 0, 123_456_789).unwrap();
    let back = UtcDateTime::from_local(date(2024, 3, 1), reading, 3600).unwrap();
    assert_eq!(back.date, date(2024, 2, 29));
    assert_eq!(back.time, ClockTime::from_hms_nano(23, 30, 0, 123_456_789).unwrap());
    let forth = UtcDateTime::from_local(date(2024, 2, 29), reading, -86_399).unwrap();
    assert_eq!(forth.date, date(2024, 3, 1));
    assert_eq!(forth.time, ClockTime::from_hms_nano(0, 29, 59, 123_456_789).unwrap());
    let same = UtcDateTime::from_local(date(2024, 2, 29), reading, 0).unwrap();
    assert_eq!(same, UtcDateTime::new(date(2024, 2, 29), reading));
}

#[test]
fn a_fraction_of_a_second_is_cut_off_towards_zero() {
    let day = date(2024, 8, 17);
    let at = |hour, minute, second, nanosecond| {
        UtcDateTime::new(day, ClockTime::from_hms_nano(hour, minute, second, nanosecond).unwrap())
    };
    let noon = at(12, 4, 15, 0);
    assert_eq!(noon.seconds_since(&at(11, 30, 22, 500_000_000)), 2032);
    assert_eq!(at(11, 30, 22, 500_000_000).seconds_since(&noon), -2032);
    assert_eq!(noon.seconds_since(&at(11, 30, 22, 1)), 2032);
    assert_eq!(noon.seconds_since(&at(11, 30, 22, 0)), 2033);
    assert_eq!(noon.seconds_since(&at(12, 4, 14, 999_999_999)), 0);
    assert_eq!(noon.seconds_since(&at(12, 4, 15, 999_999_999)), 0);
    assert_eq!(noon.seconds_since(&at(12, 4, 16, 0)), -1);
    assert_eq!(noon.seconds_since(&at(12, 4, 16, 500_000_000)), -1);
    assert_eq!(at(12, 4, 16, 500_000_000).seconds_since(&noon), 1);
    assert_eq!(at(12, 4, 15, 700).seconds_since(&at(12, 4, 15, 300)), 0);
    assert_eq!(at(12, 4, 16, 300).seconds_since(&at(12, 4, 15, 700)), 0);
    assert_eq!(at(12, 4, 17, 300).seconds_since(&at(12, 4, 15, 700)), 1);
    assert_eq!(at(12, 4, 15, 700).seconds_since(&at(12, 4, 17, 300)), -1);
}

#[test]
fn seconds_between_follow_the_count_of_nanoseconds() {
    let days = [(2, 28), (3, 1), (12, 31)];
    let mut instants = Vec::new();
    for year in [MIN_YEAR, -1, 0, 1900, 2023, 2024, MAX_YEAR] {
        for (month, day) in days {
            for seconds in [0u32, 1, 86_399] {
                for nanosecond in [0u32, 1, 500_000_000, 999_999_999] {
                    instants.push((year, month, day, seconds, nanosecond));
                }
            }
        }
    }
    for (index, &(y1, m1, d1, s1, n1)) in instants.iter().enumerate() {
        for &(y2, m2, d2, s2, n2) in instants.iter().skip(index % 5).step_by(5) {
            let clock = |s: u32, n: u32| {
                ClockTime::from_hms_nano(s / 3600, s / 60 % 60, s % 60, n).unwrap()
            };
            let later = UtcDateTime::new(date(y1, m1, d1), clock(s1, n1));
            let earlier = UtcDateTime::new(date(y2, m2, d2), clock(s2, n2));
            let days = day_number(y1 as i64, m1 as i64, d1 as i64)
                - day_number(y2 as i64, m2 as i64, d2 as i64);
            let whole = (days * 86_400 + s1 as i64 - s2 as i64) as i128;
            let nanoseconds = whole * 1_000_000_000 + n1 as i128 - n2 as i128;
            let expected = (nanoseconds / 1_000_000_000) as i64;
            assert_eq!(later.seconds_since(&earlier), expected);
        }
    }
}
