use chrono::{DateTime, Datelike, Days, FixedOffset, NaiveDate, NaiveDateTime, TimeDelta, TimeZone, Timelike};
use now::{CalendarFields, Edge, FixedZone, PeriodUnit, ZonedDateTime};

const UNITS: [PeriodUnit; 7] = [
    PeriodUnit::Minute,
    PeriodUnit::Hour,
    PeriodUnit::Day,
    PeriodUnit::Week,
    PeriodUnit::Month,
    PeriodUnit::Quarter,
    PeriodUnit::Year,
];

fn leap(year: i64) -> bool {
    year.rem_euclid(4) == 0 && (year.rem_euclid(100) != 0 || year.rem_euclid(400) == 0)
}

fn month_length(year: i64, month: i64) -> i64 {
    match month {
        2 => {
            if leap(year) {
                29
            } else {
                28
            }
        }
        4 | 6 | 9 | 11 => 30,
        _ => 31,
    }
}

// The day number as the library's calendar defines it.
fn day_number(year: i64, month: i64, day: i64) -> i64 {
    let before = year - 1;
    let mut days = 365 * before + before.div_euclid(4) - before.div_euclid(100)
        + before.div_euclid(400);
    for earlier in 1..month {
        days += month_length(year, earlier);
    }
    days + day
}

fn to_library(at: &NaiveDateTime, offset: i32) -> ZonedDateTime {
    let local = CalendarFields::new(
        at.year(),
        at.month(),
        at.day(),
        at.hour(),
        at.minute(),
        at.second(),
        at.nanosecond(),
    )
    .unwrap();
    ZonedDateTime::new(local, FixedZone::east(offset).unwrap()).unwrap()
}

fn to_chrono(t: &ZonedDateTime) -> DateTime<FixedOffset> {
    let naive = NaiveDate::from_ymd_opt(t.year(), t.month(), t.day())
        .unwrap()
        .and_hms_nano_opt(t.hour(), t.minute(), t.second(), t.nanosecond())
        .unwrap();
    FixedOffset::east_opt(t.zone().offset_seconds())
        .unwrap()
        .from_local_datetime(&naive)
        .unwrap()
}

fn first_instant(date: NaiveDate) -> NaiveDateTime {
    date.and_hms_opt(0, 0, 0).unwrap()
}

fn last_instant(date: NaiveDate) -> NaiveDateTime {
    date.and_hms_nano_opt(23, 59, 59, 999_999_999).unwrap()
}

// The edges, found with chrono's own date arithmetic.
fn expected(at: &NaiveDateTime, unit: PeriodUnit, edge: Edge) -> NaiveDateTime {
    let date = at.date();
    let quarter_first = (date.month0() / 3) * 3 + 1;
    let (first, last) = match unit {
        PeriodUnit::Minute => (
            date.and_hms_opt(at.hour(), at.minute(), 0).unwrap(),
            date.and_hms_nano_opt(at.hour(), at.minute(), 59, 999_999_999).unwrap(),
        ),
        PeriodUnit::Hour => (
            date.and_hms_opt(at.hour(), 0, 0).unwrap(),
            date.and_hms_nano_opt(at.hour(), 59, 59, 999_999_999).unwrap(),
        ),
        PeriodUnit::Day => (first_instant(date), last_instant(date)),
        PeriodUnit::Week => {
            let monday = date - Days::new(date.weekday().num_days_from_monday() as u64);
            (first_instant(monday), last_instant(monday + Days::new(6)))
        }
        PeriodUnit::Month => {
            let first = date.with_day(1).unwrap();
            (first_instant(first), last_instant(first + chrono::Months::new(1) - Days::new(1)))
        }
        PeriodUnit::Quarter => {
            let first = NaiveDate::from_ymd_opt(date.year(), quarter_first, 1).unwrap();
            (first_instant(first), last_instant(first + chrono::Months::new(3) - Days::new(1)))
        }
        PeriodUnit::Year => (
            first_instant(NaiveDate::from_ymd_opt(date.year(), 1, 1).unwrap()),
            last_instant(NaiveDate::from_ymd_opt(date.year(), 12, 31).unwrap()),
        ),
    };
    match edge {
        Edge::Beginning => first,
        Edge::End => last,
    }
}

#[test]
fn day_numbers_are_chronos_days_from_the_common_era() {
    assert_eq!(day_number(1, 1, 1), 1);
    assert_eq!(day_number(1970, 1, 1), 719_163);
    assert_eq!(day_number(2023, 3, 15), 738_594);
    assert_eq!(day_number(0, 12, 31), 0);
    assert_eq!(day_number(-262_143, 1, 1), -95_746_129);
    assert_eq!(day_number(262_142, 12, 31), 95_745_399);
    let mut date = NaiveDate::MIN;
    loop {
        let number = day_number(date.year() as i64, date.month() as i64, date.day() as i64);
        assert_eq!(number, date.num_days_from_ce() as i64);
        assert_eq!(
            (number - 1).rem_euclid(7) + 1,
            date.weekday().number_from_monday() as i64
        );
        match date.checked_add_days(Days::new(9_973)) {
            Some(next) => date = next,
            None => break,
        }
    }
    let last = NaiveDate::MAX;
    assert_eq!((last.year(), last.month(), last.day()), (262_142, 12, 31));
    assert_eq!(day_number(262_142, 12, 31), last.num_days_from_ce() as i64);
    let first = NaiveDate::MIN;
    assert_eq!((first.year(), first.month(), first.day()), (-262_143, 1, 1));
}

#[test]
fn every_day_of_some_years_has_chronos_edges() {
    let offset = 8 * 3600;
    let mut date = NaiveDate::from_ymd_opt(2019, 12, 20).unwrap();
    let end = NaiveDate::from_ymd_opt(2025, 1, 15).unwrap();
    while date < end {
        let at = date.and_hms_nano_opt(10, 30, 45, 123_456_789).unwrap();
        let t = to_library(&at, offset);
        for unit in UNITS {
            for edge in [Edge::Beginning, Edge::End] {
                let want = to_library(&expected(&at, unit, edge), offset);
                assert_eq!(t.boundary(unit, edge), Ok(want));
            }
        }
        date = date + Days::new(1);
    }
}

#[test]
fn years_long_ago_and_far_ahead_have_chronos_edges() {
    for year in [-262_142, -100_001, -401, -400, -4, -1, 0, 1, 4, 100, 1582, 1900, 2000, 2100, 99_999, 262_141] {
        for (month, day) in [(1, 1), (1, 31), (2, 28), (3, 1), (6, 30), (7, 4), (10, 1), (12, 31)] {
            for offset in [-86_399, -3600, 0, 1, 19_800, 86_399] {
                let at = NaiveDate::from_ymd_opt(year, month, day)
                    .unwrap()
                    .and_hms_nano_opt(23, 59, 59, 999_999_999)
                    .unwrap();
                let t = to_library(&at, offset);
                for unit in UNITS {
                    for edge in [Edge::Beginning, Edge::End] {
                        let want = to_library(&expected(&at, unit, edge), offset);
                        assert_eq!(t.boundary(unit, edge), Ok(want));
                    }
                }
            }
        }
    }
}

#[test]
fn every_time_of_a_day_has_the_same_day_and_its_own_minute() {
    let date = NaiveDate::from_ymd_opt(2024, 2, 29).unwrap();
    for second in (0..86_400u32).step_by(61) {
        let at = date.and_hms_nano_opt(second / 3600, second / 60 % 60, second % 60, second).unwrap();
        let t = to_library(&at, -7 * 3600);
        for unit in UNITS {
            for edge in [Edge::Beginning, Edge::End] {
                let want = to_library(&expected(&at, unit, edge), -7 * 3600);
                assert_eq!(t.boundary(unit, edge), Ok(want));
            }
        }
    }
}

#[test]
fn the_end_of_a_month_is_a_nanosecond_before_the_next_one() {
    let mut date = NaiveDate::from_ymd_opt(2023, 1, 17).unwrap();
    for _ in 0..40 {
        let at = date.and_hms_opt(6, 7, 8).unwrap();
        let t = to_library(&at, 8 * 3600);
        let last = t.end_of(PeriodUnit::Month).unwrap();
        let later = to_library(&(at + chrono::Months::new(1)), 8 * 3600);
        let first = later.beginning_of(PeriodUnit::Month).unwrap();
        assert_eq!(to_chrono(&last) + TimeDelta::nanoseconds(1), to_chrono(&first));
        date = date + chrono::Months::new(1);
    }
    let t = to_library(
        &NaiveDate::from_ymd_opt(2023, 12, 15).unwrap().and_hms_opt(0, 0, 0).unwrap(),
        8 * 3600,
    );
    let later = to_library(
        &NaiveDate::from_ymd_opt(2024, 1, 31).unwrap().and_hms_opt(23, 0, 0).unwrap(),
        8 * 3600,
    );
    assert_eq!(
        to_chrono(&t.end_of(PeriodUnit::Month).unwrap()) + TimeDelta::nanoseconds(1),
        to_chrono(&later.beginning_of(PeriodUnit::Month).unwrap())
    );
}

#[test]
fn edges_enclose_their_instant_and_are_their_own_edges() {
    let offsets = [-12 * 3600, -5 * 3600 - 1800, 0, 8 * 3600, 14 * 3600];
    let mut at = NaiveDate::from_ymd_opt(2021, 11, 3).unwrap().and_hms_nano_opt(0, 0, 0, 0).unwrap();
    for step in 0..400 {
        let offset = offsets[step % offsets.len()];
        let t = to_library(&at, offset);
        for unit in UNITS {
            let first = t.beginning_of(unit).unwrap();
            let last = t.end_of(unit).unwrap();
            assert!(to_chrono(&first) <= to_chrono(&t));
            assert!(to_chrono(&t) <= to_chrono(&last));
            assert_eq!(first.beginning_of(unit), Ok(first));
            assert_eq!(last.end_of(unit), Ok(last));
            assert_eq!(first.end_of(unit), Ok(last));
            assert_eq!(last.beginning_of(unit), Ok(first));
            assert_eq!(first.zone(), t.zone());
            assert_eq!(last.zone(), t.zone());
            assert_eq!(to_chrono(&first).offset().local_minus_utc(), offset);
            let (a, b, c) = (to_chrono(&first), to_chrono(&t), to_chrono(&last));
            match unit {
                PeriodUnit::Year => assert!(a.year() == b.year() && b.year() == c.year()),
                PeriodUnit::Week => {
                    assert!(a.iso_week() == b.iso_week() && b.iso_week() == c.iso_week())
                }
                PeriodUnit::Month => assert!(
                    (a.year(), a.month()) == (b.year(), b.month())
                        && (b.year(), b.month()) == (c.year(), c.month())
                ),
                PeriodUnit::Quarter => assert!(
                    (a.year(), a.month0() / 3) == (b.year(), b.month0() / 3)
                        && (b.year(), b.month0() / 3) == (c.year(), c.month0() / 3)
                ),
                _ => assert!(a.date_naive() == b.date_naive() && b.date_naive() == c.date_naive()),
            }
        }
        at = at + TimeDelta::nanoseconds(86_400_000_000_000 * 3 + 3_723_000_000_789);
    }
}
