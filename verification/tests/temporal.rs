use std::cmp::Ordering;

use timeline_layout::{EventTime, LayoutError, SimpleDate, TimePeriod, Timestamp};

fn date(year: u32, month: u32, day: u32) -> SimpleDate {
    SimpleDate { year, month, day }
}

fn period(start: u32, end: u32) -> TimePeriod {
    TimePeriod::new(Timestamp::Year(start), Timestamp::Year(end)).unwrap()
}

#[test]
fn dates_order_by_year_then_month_then_day() {
    let a = date(2024, 3, 10);
    let b = date(2024, 3, 11);
    let c = date(2024, 4, 1);
    let d = date(2025, 1, 1);
    assert!(a < b);
    assert!(b < c);
    assert!(c < d);
    assert!(a < d);
    assert!(d > a);
    assert!(!(b < a));
    assert!(a <= a);
    assert!(a >= a);
}

#[test]
fn partial_cmp_gives_all_three_outcomes() {
    assert_eq!(date(1700, 5, 1).partial_cmp(&date(1700, 5, 2)), Some(Ordering::Less));
    assert_eq!(date(1700, 5, 2).partial_cmp(&date(1700, 5, 2)), Some(Ordering::Equal));
    assert_eq!(date(1700, 5, 3).partial_cmp(&date(1700, 5, 2)), Some(Ordering::Greater));
    assert_eq!(date(1700, 6, 0).partial_cmp(&date(1700, 5, 30)), Some(Ordering::Greater));
    assert_eq!(date(1699, 12, 31).partial_cmp(&date(1700, 0, 0)), Some(Ordering::Less));
}

#[test]
fn a_later_year_wins_over_month_and_day() {
    assert!(date(1800, 0, 0) > date(1799, 12, 31));
    assert!(date(1800, 1, 0) > date(1800, 0, 31));
}

#[test]
fn sorting_agrees_with_comparison() {
    let mut dates = vec![date(2025, 1, 1), date(2024, 3, 11), date(2024, 4, 1), date(2024, 3, 10)];
    dates.sort();
    assert_eq!(
        dates,
        vec![date(2024, 3, 10), date(2024, 3, 11), date(2024, 4, 1), date(2025, 1, 1)]
    );
    for pair in dates.windows(2) {
        assert!(pair[0] < pair[1]);
        assert_eq!(pair[0].cmp(&pair[1]), Ordering::Less);
    }
}

#[test]
fn a_bare_year_is_its_first_day() {
    assert_eq!(Timestamp::Year(1789).date(), date(1789, 0, 0));
    assert_eq!(Timestamp::Year(1789).year(), 1789);
}

#[test]
fn a_full_date_keeps_month_and_day() {
    let stamp = Timestamp::Date(date(1789, 7, 14));
    assert_eq!(stamp.date(), date(1789, 7, 14));
    assert_eq!(stamp.year(), 1789);
}

#[test]
fn a_period_that_ends_before_it_starts_is_refused() {
    assert_eq!(
        TimePeriod::new(Timestamp::Year(1800), Timestamp::Year(1799)),
        Err(LayoutError::MalformedPeriod)
    );
    assert_eq!(
        TimePeriod::new(Timestamp::Date(date(1800, 3, 2)), Timestamp::Date(date(1800, 3, 1))),
        Err(LayoutError::MalformedPeriod)
    );
    assert_eq!(
        TimePeriod::new(Timestamp::Date(date(1800, 0, 1)), Timestamp::Year(1800)),
        Err(LayoutError::MalformedPeriod)
    );
}

#[test]
fn new_keeps_start_and_end() {
    let p = TimePeriod::new(Timestamp::Year(1760), Timestamp::Date(date(1770, 2, 3))).unwrap();
    assert_eq!(p.start(), Timestamp::Year(1760));
    assert_eq!(p.end(), Timestamp::Date(date(1770, 2, 3)));
}

#[test]
fn a_period_of_no_length_is_valid_and_overlaps_itself() {
    let p = TimePeriod::new(Timestamp::Year(1800), Timestamp::Year(1800)).unwrap();
    assert_eq!(p.years(), 0);
    assert!(p.overlaps(&p));
    let q = TimePeriod::new(Timestamp::Date(date(1800, 3, 2)), Timestamp::Date(date(1800, 3, 2)))
        .unwrap();
    assert!(q.overlaps(&q));
}

#[test]
fn years_is_the_difference_of_the_years() {
    assert_eq!(period(1700, 1800).years(), 100);
    let p = TimePeriod::new(Timestamp::Date(date(1914, 7, 28)), Timestamp::Date(date(1918, 11, 11)))
        .unwrap();
    assert_eq!(p.years(), 4);
    assert_eq!(period(0, u32::MAX).years(), u32::MAX);
}

#[test]
fn contains_reaches_five_years_beyond_both_ends() {
    let p = period(1760, 1770);
    assert!(!p.contains(&date(1754, 12, 31)));
    assert!(p.contains(&date(1755, 0, 0)));
    assert!(p.contains(&date(1760, 0, 0)));
    assert!(p.contains(&date(1765, 6, 15)));
    assert!(p.contains(&date(1770, 0, 0)));
    assert!(p.contains(&date(1775, 12, 31)));
    assert!(!p.contains(&date(1776, 0, 0)));
}

#[test]
fn contains_near_the_ends_of_the_number_range() {
    let early = period(3, 4);
    assert!(early.contains(&date(0, 0, 0)));
    assert!(early.contains(&date(9, 0, 0)));
    assert!(!early.contains(&date(10, 0, 0)));
    let late = period(u32::MAX - 2, u32::MAX - 1);
    assert!(late.contains(&date(u32::MAX, 0, 0)));
    assert!(late.contains(&date(u32::MAX - 7, 0, 0)));
    assert!(!late.contains(&date(u32::MAX - 8, 0, 0)));
}

#[test]
fn periods_overlap_when_they_share_a_date() {
    let a = period(1700, 1750);
    let b = period(1750, 1800);
    let c = period(1751, 1800);
    assert!(a.overlaps(&b));
    assert!(b.overlaps(&a));
    assert!(!a.overlaps(&c));
    assert!(!c.overlaps(&a));
    let inner = period(1710, 1720);
    assert!(a.overlaps(&inner));
    assert!(inner.overlaps(&a));
}

#[test]
fn period_overlap_is_exact_to_the_day() {
    let a = TimePeriod::new(Timestamp::Year(1700), Timestamp::Date(date(1750, 3, 10))).unwrap();
    let b = TimePeriod::new(Timestamp::Date(date(1750, 3, 10)), Timestamp::Year(1800)).unwrap();
    let c = TimePeriod::new(Timestamp::Date(date(1750, 3, 11)), Timestamp::Year(1800)).unwrap();
    assert!(a.overlaps(&b));
    assert!(!a.overlaps(&c));
    assert_eq!(a.overlaps(&c), c.overlaps(&a));
}

#[test]
fn period_overlap_is_symmetric_on_a_grid() {
    let years = [1700u32, 1705, 1710, 1720];
    for s1 in years {
        for e1 in years {
            for s2 in years {
                for e2 in years {
                    if s1 <= e1 && s2 <= e2 {
                        let a = period(s1, e1);
                        let b = period(s2, e2);
                        assert_eq!(a.overlaps(&b), b.overlaps(&a));
                    }
                }
            }
        }
    }
}

#[test]
fn singles_overlap_within_ten_years() {
    let a = EventTime::Single(Timestamp::Year(1900));
    let b = EventTime::Single(Timestamp::Year(1910));
    let c = EventTime::Single(Timestamp::Year(1911));
    assert!(a.overlaps(&b));
    assert!(b.overlaps(&a));
    assert!(!a.overlaps(&c));
    assert!(!c.overlaps(&a));
    assert!(a.overlaps(&a));
}

#[test]
fn singles_overlap_by_year_alone() {
    let a = EventTime::Single(Timestamp::Date(date(1900, 0, 1)));
    let b = EventTime::Single(Timestamp::Date(date(1910, 12, 31)));
    assert!(a.overlaps(&b));
    let low = EventTime::Single(Timestamp::Year(0));
    let high = EventTime::Single(Timestamp::Year(u32::MAX));
    assert!(!low.overlaps(&high));
    assert!(!high.overlaps(&low));
}

#[test]
fn a_single_and_a_period_overlap_with_five_years_of_slack() {
    let p = EventTime::Period(period(1760, 1770));
    let inside = EventTime::Single(Timestamp::Year(1765));
    let near = EventTime::Single(Timestamp::Year(1755));
    let far = EventTime::Single(Timestamp::Year(1754));
    assert!(p.overlaps(&inside));
    assert!(inside.overlaps(&p));
    assert!(p.overlaps(&near));
    assert!(near.overlaps(&p));
    assert!(!p.overlaps(&far));
    assert!(!far.overlaps(&p));
}

#[test]
fn a_single_at_the_bound_of_a_period_overlaps_it() {
    let p = EventTime::Period(period(1760, 1770));
    let at_start = EventTime::Single(Timestamp::Year(1760));
    let at_end = EventTime::Single(Timestamp::Year(1770));
    assert!(p.overlaps(&at_start));
    assert!(at_start.overlaps(&p));
    assert!(p.overlaps(&at_end));
    assert!(at_end.overlaps(&p));
}

#[test]
fn two_period_events_overlap_as_their_periods_do() {
    let a = EventTime::Period(period(1700, 1750));
    let b = EventTime::Period(period(1750, 1800));
    let c = EventTime::Period(period(1751, 1800));
    assert!(a.overlaps(&b));
    assert!(!a.overlaps(&c));
    assert!(!c.overlaps(&a));
}

#[test]
fn start_and_end_date_of_an_event() {
    let single = EventTime::Single(Timestamp::Date(date(1789, 7, 14)));
    assert_eq!(single.start_date(), date(1789, 7, 14));
    assert_eq!(single.end_date(), date(1789, 7, 14));
    let span = EventTime::Period(
        TimePeriod::new(Timestamp::Year(1914), Timestamp::Date(date(1918, 11, 11))).unwrap(),
    );
    assert_eq!(span.start_date(), date(1914, 0, 0));
    assert_eq!(span.end_date(), date(1918, 11, 11));
}

#[test]
fn duration_is_zero_for_a_single_and_the_span_for_a_period() {
    assert_eq!(EventTime::Single(Timestamp::Year(1789)).duration_years(), 0);
    assert_eq!(EventTime::Period(period(1760, 1770)).duration_years(), 10);
}

#[test]
fn covers_is_exact_at_both_ends() {
    let p = TimePeriod::new(Timestamp::Year(1760), Timestamp::Date(date(1770, 2, 3))).unwrap();
    assert!(!p.covers(&date(1759, 12, 31)));
    assert!(p.covers(&date(1760, 0, 0)));
    assert!(p.covers(&date(1765, 6, 15)));
    assert!(p.covers(&date(1770, 2, 3)));
    assert!(!p.covers(&date(1770, 2, 4)));
    // what covers refuses here, contains still takes
    assert!(p.contains(&date(1759, 12, 31)));
    assert!(p.contains(&date(1770, 2, 4)));
}

#[test]
fn overlapping_periods_share_a_date() {
    let a = period(1700, 1750);
    let b = period(1750, 1800);
    assert!(a.overlaps(&b));
    assert!(a.covers(&date(1750, 0, 0)) && b.covers(&date(1750, 0, 0)));
}
