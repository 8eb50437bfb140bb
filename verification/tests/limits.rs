use now::{
    plan_boundary, resolve_local, BoundaryError, BoundaryPlan, CalendarFields, DateTimeNow, Edge,
    FixedZone, LocalOutcome, PeriodUnit, ZonedDateTime,
};

const FIRST_YEAR: i32 = -262_143;
const LAST_YEAR: i32 = 262_142;
const START: (u32, u32, u32, u32) = (0, 0, 0, 0);
const FINISH: (u32, u32, u32, u32) = (23, 59, 59, 999_999_999);

fn fields(date: (i32, u32, u32), time: (u32, u32, u32, u32)) -> CalendarFields {
    CalendarFields::new(date.0, date.1, date.2, time.0, time.1, time.2, time.3).unwrap()
}

fn instant(date: (i32, u32, u32), time: (u32, u32, u32, u32), offset: i32) -> ZonedDateTime {
    ZonedDateTime::new(fields(date, time), FixedZone::east(offset).unwrap()).unwrap()
}

#[test]
fn the_supported_years_are_those_of_the_constants() {
    assert_eq!(now::calendar::MIN_YEAR, FIRST_YEAR);
    assert_eq!(now::calendar::MAX_YEAR, LAST_YEAR);
}

#[test]
fn the_last_december_has_no_month_after_it() {
    let t = instant((LAST_YEAR, 12, 15), (12, 0, 0, 0), 0);
    assert_eq!(t.end_of_month(), Err(BoundaryError::OutOfRange));
    assert_eq!(t.end_of_quarter(), Err(BoundaryError::OutOfRange));
    let october = instant((LAST_YEAR, 10, 1), START, 0);
    assert_eq!(october.end_of_quarter(), Err(BoundaryError::OutOfRange));
    assert_eq!(october.end_of_month(), Ok(instant((LAST_YEAR, 10, 31), FINISH, 0)));
    let november = instant((LAST_YEAR, 11, 30), FINISH, 0);
    assert_eq!(november.end_of_month(), Ok(november));
    assert_eq!(november.end_of_quarter(), Err(BoundaryError::OutOfRange));
}

#[test]
fn the_last_year_still_has_its_other_edges() {
    let t = instant((LAST_YEAR, 12, 15), (12, 0, 0, 0), 0);
    assert_eq!(t.end_of_year(), Ok(instant((LAST_YEAR, 12, 31), FINISH, 0)));
    assert_eq!(t.beginning_of_month(), Ok(instant((LAST_YEAR, 12, 1), START, 0)));
    assert_eq!(t.beginning_of_quarter(), Ok(instant((LAST_YEAR, 10, 1), START, 0)));
    assert_eq!(t.end_of_day(), Ok(instant((LAST_YEAR, 12, 15), FINISH, 0)));
    assert_eq!(
        instant((LAST_YEAR, 9, 2), START, 0).end_of_quarter(),
        Ok(instant((LAST_YEAR, 9, 30), FINISH, 0))
    );
}

#[test]
fn weeks_that_leave_the_supported_years_are_refused() {
    // The first day of the first year is a Thursday, its first Monday the 5th.
    let thursday = instant((FIRST_YEAR, 1, 1), (12, 0, 0, 0), 0);
    assert_eq!(thursday.beginning_of_week(), Err(BoundaryError::OutOfRange));
    assert_eq!(thursday.end_of_week(), Ok(instant((FIRST_YEAR, 1, 4), FINISH, 0)));
    let sunday = instant((FIRST_YEAR, 1, 4), (12, 0, 0, 0), 0);
    assert_eq!(sunday.beginning_of_week(), Err(BoundaryError::OutOfRange));
    let monday = instant((FIRST_YEAR, 1, 5), (12, 0, 0, 0), 0);
    assert_eq!(monday.beginning_of_week(), Ok(instant((FIRST_YEAR, 1, 5), START, 0)));
    // The last day of the last year is a Monday.
    let last = instant((LAST_YEAR, 12, 31), (12, 0, 0, 0), 0);
    assert_eq!(last.end_of_week(), Err(BoundaryError::OutOfRange));
    assert_eq!(last.beginning_of_week(), Ok(instant((LAST_YEAR, 12, 31), START, 0)));
    let eve = instant((LAST_YEAR, 12, 30), (12, 0, 0, 0), 0);
    assert_eq!(eve.end_of_week(), Ok(instant((LAST_YEAR, 12, 30), FINISH, 0)));
    assert_eq!(eve.beginning_of_week(), Ok(instant((LAST_YEAR, 12, 24), START, 0)));
}

#[test]
fn an_instant_must_be_in_range_on_the_clock_of_utc_too() {
    let east = FixedZone::east(8 * 3600).unwrap();
    let west = FixedZone::east(-8 * 3600).unwrap();
    // East of Greenwich the first local hours fall, in UTC, before the first year.
    assert_eq!(ZonedDateTime::new(fields((FIRST_YEAR, 1, 1), (7, 59, 59, 999_999_999)), east), None);
    assert!(ZonedDateTime::new(fields((FIRST_YEAR, 1, 1), (8, 0, 0, 0)), east).is_some());
    assert!(ZonedDateTime::new(fields((FIRST_YEAR, 1, 1), START), west).is_some());
    // West of Greenwich the last local hours fall, in UTC, after the last year.
    assert_eq!(ZonedDateTime::new(fields((LAST_YEAR, 12, 31), (16, 0, 0, 0)), west), None);
    assert!(
        ZonedDateTime::new(fields((LAST_YEAR, 12, 31), (15, 59, 59, 999_999_999)), west).is_some()
    );
    assert!(ZonedDateTime::new(fields((LAST_YEAR, 12, 31), FINISH), east).is_some());
    assert_eq!(
        east.place(&fields((FIRST_YEAR, 1, 1), START)),
        Err(BoundaryError::OutOfRange)
    );
    assert_eq!(
        east.place(&fields((2023, 3, 15), (1, 2, 3, 4))),
        Ok(instant((2023, 3, 15), (1, 2, 3, 4), 8 * 3600))
    );
}

#[test]
fn an_edge_outside_the_range_of_utc_is_refused() {
    let t = instant((FIRST_YEAR, 1, 1), (12, 0, 0, 0), 8 * 3600);
    assert_eq!(t.beginning_of_year(), Err(BoundaryError::OutOfRange));
    assert_eq!(t.beginning_of_quarter(), Err(BoundaryError::OutOfRange));
    assert_eq!(t.beginning_of_month(), Err(BoundaryError::OutOfRange));
    assert_eq!(t.beginning_of_day(), Err(BoundaryError::OutOfRange));
    assert_eq!(
        t.beginning_of_hour(),
        Ok(instant((FIRST_YEAR, 1, 1), (12, 0, 0, 0), 8 * 3600))
    );
    assert_eq!(t.end_of_year(), Ok(instant((FIRST_YEAR, 12, 31), FINISH, 8 * 3600)));
    let t = instant((LAST_YEAR, 12, 31), (12, 0, 0, 0), -8 * 3600);
    assert_eq!(t.end_of_year(), Err(BoundaryError::OutOfRange));
    assert_eq!(t.end_of_day(), Err(BoundaryError::OutOfRange));
    assert_eq!(
        t.end_of_hour(),
        Ok(instant((LAST_YEAR, 12, 31), (12, 59, 59, 999_999_999), -8 * 3600))
    );
    assert_eq!(t.beginning_of_year(), Ok(instant((LAST_YEAR, 1, 1), START, -8 * 3600)));
}

#[test]
fn an_invalid_zone_or_local_time_makes_no_instant() {
    let local = fields((2023, 3, 15), START);
    assert_eq!(ZonedDateTime::new(local, FixedZone { offset_seconds: 86_400 }), None);
    assert_eq!(ZonedDateTime::new(local, FixedZone { offset_seconds: -86_400 }), None);
    let nowhere = CalendarFields {
        year: 2023,
        month: 2,
        day: 29,
        hour: 0,
        minute: 0,
        second: 0,
        nanosecond: 0,
    };
    assert_eq!(ZonedDateTime::new(nowhere, FixedZone::utc()), None);
    let leap = CalendarFields { second: 59, nanosecond: 1_000_000_000, ..local };
    assert_eq!(ZonedDateTime::new(leap, FixedZone::utc()), None);
    let made = ZonedDateTime::new(local, FixedZone::utc()).unwrap();
    assert_eq!(made.local(), local);
    assert_eq!(made.zone(), FixedZone::utc());
}

#[test]
fn only_a_single_outcome_is_accepted() {
    assert_eq!(resolve_local(LocalOutcome::Single(7)), Ok(7));
    assert_eq!(
        resolve_local(LocalOutcome::Ambiguous(7, 8)),
        Err(BoundaryError::InvalidLocalTime)
    );
    assert_eq!(
        resolve_local(LocalOutcome::<i32>::Missing),
        Err(BoundaryError::InvalidLocalTime)
    );
}

#[test]
fn plans_name_the_anchor_and_the_step_back() {
    let f = fields((2023, 12, 15), (10, 30, 45, 123_456_789));
    assert_eq!(
        plan_boundary(&f, PeriodUnit::Month, Edge::End),
        Ok(BoundaryPlan { anchor: fields((2024, 1, 1), START), step_back: true })
    );
    assert_eq!(
        plan_boundary(&f, PeriodUnit::Quarter, Edge::End),
        Ok(BoundaryPlan { anchor: fields((2024, 1, 1), START), step_back: true })
    );
    assert_eq!(
        plan_boundary(&f, PeriodUnit::Year, Edge::End),
        Ok(BoundaryPlan { anchor: fields((2023, 12, 31), FINISH), step_back: false })
    );
    assert_eq!(
        plan_boundary(&f, PeriodUnit::Month, Edge::Beginning),
        Ok(BoundaryPlan { anchor: fields((2023, 12, 1), START), step_back: false })
    );
    assert_eq!(
        plan_boundary(&f, PeriodUnit::Quarter, Edge::Beginning),
        Ok(BoundaryPlan { anchor: fields((2023, 10, 1), START), step_back: false })
    );
    // 15 December 2023 is a Friday.
    assert_eq!(
        plan_boundary(&f, PeriodUnit::Week, Edge::Beginning),
        Ok(BoundaryPlan { anchor: fields((2023, 12, 11), START), step_back: false })
    );
    assert_eq!(
        plan_boundary(&f, PeriodUnit::Week, Edge::End),
        Ok(BoundaryPlan { anchor: fields((2023, 12, 17), FINISH), step_back: false })
    );
    assert_eq!(
        plan_boundary(&f, PeriodUnit::Minute, Edge::End),
        Ok(BoundaryPlan { anchor: fields((2023, 12, 15), (10, 30, 59, 999_999_999)), step_back: false })
    );
    assert_eq!(
        plan_boundary(&f, PeriodUnit::Hour, Edge::Beginning),
        Ok(BoundaryPlan { anchor: fields((2023, 12, 15), (10, 0, 0, 0)), step_back: false })
    );
    let may = fields((2023, 5, 31), FINISH);
    assert_eq!(
        plan_boundary(&may, PeriodUnit::Month, Edge::End),
        Ok(BoundaryPlan { anchor: fields((2023, 6, 1), START), step_back: true })
    );
    assert_eq!(
        plan_boundary(&may, PeriodUnit::Quarter, Edge::End),
        Ok(BoundaryPlan { anchor: fields((2023, 7, 1), START), step_back: true })
    );
    let last = fields((LAST_YEAR, 12, 1), START);
    assert_eq!(plan_boundary(&last, PeriodUnit::Month, Edge::End), Err(BoundaryError::OutOfRange));
}
