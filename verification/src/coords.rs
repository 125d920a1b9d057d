//! From points in time and lanes to pixels.
//!
//! Horizontally a year is `PIXELS_PER_YEAR` wide, a month a twelfth of a year
//! and a day a thirtieth of a month. Months of thirty days are a deliberate
//! simplification: the axis is not accurate to the calendar. Positions are
//! computed exactly in 360ths of a pixel and rounded to the nearest pixel, a
//! half upwards. Vertically lanes stack upwards from a baseline, so a high
//! lane can come to lie above the canvas, at a negative position.

use vstd::prelude::*;

use crate::error::LayoutError;
use crate::timeline_data::SimpleDate;

verus! {

/// The width of one year on the axis.
pub const PIXELS_PER_YEAR: u32 = 5;

/// The free space to the left of the axis start and to the right of its end.
pub const SIDE_MARGIN: u32 = 25;

/// The vertical distance between two neighbouring lanes.
pub const LANE_SEPARATION_MARGIN: u32 = 20;

/// The number of months that make up the width of a year.
pub const MONTHS_PER_YEAR: u32 = 12;

/// The number of days that make up the width of a month.
pub const DAYS_PER_MONTH: u32 = 30;

/// The number of days that make up the width of a year.
pub const DAYS_PER_YEAR: u32 = MONTHS_PER_YEAR * DAYS_PER_MONTH;

/// The days from the first day of `axis_start_year` to `point`, with every
/// month taken as `DAYS_PER_MONTH` days.
pub open spec fn days_from_axis_start(axis_start_year: int, point: SimpleDate) -> int {
    (point.year - axis_start_year) * DAYS_PER_YEAR + point.month * DAYS_PER_MONTH + point.day
}

/// The integer nearest to `numerator / denominator`; of two equally near
/// ones the greater.
pub open spec fn round_half_up(numerator: int, denominator: int) -> int
    recommends
        denominator > 0,
{
    (2 * numerator + denominator) / (2 * denominator)
}

/// The horizontal pixel position of `point` on an axis that starts with
/// `axis_start_year`.
pub open spec fn spec_x_from_point(axis_start_year: int, point: SimpleDate) -> int {
    SIDE_MARGIN + round_half_up(
        PIXELS_PER_YEAR * days_from_axis_start(axis_start_year, point),
        DAYS_PER_YEAR as int,
    )
}

/// The horizontal pixel position of the first day of `year`.
pub open spec fn spec_x_from_year(axis_start_year: int, year: int) -> int {
    SIDE_MARGIN + (year - axis_start_year) * PIXELS_PER_YEAR
}

/// The vertical pixel position of `lane` above the baseline `base_y`.
pub open spec fn spec_y_from_lane(base_y: int, lane: int) -> int {
    base_y - lane * LANE_SEPARATION_MARGIN
}

/// The horizontal pixel position of `point`, or `OutOfBoundsPoint` where
/// `point` lies in a year before `axis_start_year`.
pub fn x_from_point(axis_start_year: u32, point: &SimpleDate) -> (r: Result<i64, LayoutError>)
    ensures
        match r {
            Ok(x) => point.year >= axis_start_year && x == spec_x_from_point(
                axis_start_year as int,
                *point,
            ),
            Err(error) => point.year < axis_start_year && error == LayoutError::OutOfBoundsPoint,
        },
{
    if point.year < axis_start_year {
        Err(LayoutError::OutOfBoundsPoint)
    } else {
        Ok(x_of_point(axis_start_year, point))
    }
}

/// The horizontal pixel position of the first day of `year`, or
/// `OutOfBoundsPoint` where `year` lies before `axis_start_year`.
pub fn x_from_year(axis_start_year: u32, year: u32) -> (r: Result<i64, LayoutError>)
    ensures
        match r {
            Ok(x) => year >= axis_start_year && x == spec_x_from_year(
                axis_start_year as int,
                year as int,
            ),
            Err(error) => year < axis_start_year && error == LayoutError::OutOfBoundsPoint,
        },
{
    if year < axis_start_year {
        Err(LayoutError::OutOfBoundsPoint)
    } else {
        Ok(x_of_year(axis_start_year, year))
    }
}

/// The horizontal pixel position of a point that does not lie before the
/// axis.
pub(crate) fn x_of_point(axis_start_year: u32, point: &SimpleDate) -> (x: i64)
    requires
        axis_start_year <= point.year,
    ensures
        x == spec_x_from_point(axis_start_year as int, *point),
{
    let delta: u64 = (point.year - axis_start_year) as u64;
    assert(delta * DAYS_PER_YEAR == delta * 360);
    assert(point.month * DAYS_PER_MONTH == point.month * 30);
    let days: u64 = delta * (DAYS_PER_YEAR as u64) + (point.month as u64) * (DAYS_PER_MONTH as u64)
        + point.day as u64;
    let twice: u64 = 2 * (DAYS_PER_YEAR as u64);
    assert(PIXELS_PER_YEAR * days == 5 * days);
    let rounded: u64 = (2 * ((PIXELS_PER_YEAR as u64) * days) + DAYS_PER_YEAR as u64) / twice;
    (SIDE_MARGIN as u64 + rounded) as i64
}

/// The horizontal pixel position of the first day of a year that does not lie
/// before the axis.
pub(crate) fn x_of_year(axis_start_year: u32, year: u32) -> (x: i64)
    requires
        axis_start_year <= year,
    ensures
        x == spec_x_from_year(axis_start_year as int, year as int),
{
    let delta: i64 = (year - axis_start_year) as i64;
    assert(delta * PIXELS_PER_YEAR == delta * 5);
    SIDE_MARGIN as i64 + delta * (PIXELS_PER_YEAR as i64)
}

/// The vertical pixel position of `lane` above the baseline `base_y`.
pub fn y_from_lane(base_y: u32, lane: u32) -> (y: i64)
    ensures
        y == spec_y_from_lane(base_y as int, lane as int),
{
    assert(lane * LANE_SEPARATION_MARGIN == lane * 20);
    base_y as i64 - (lane as i64) * (LANE_SEPARATION_MARGIN as i64)
}

/// The position of a point with the scales written out in numbers.
pub proof fn lemma_x_from_point_in_numbers(axis_start_year: int, point: SimpleDate)
    ensures
        days_from_axis_start(axis_start_year, point) == (point.year - axis_start_year) * 360
            + point.month * 30 + point.day,
        spec_x_from_point(axis_start_year, point) == 25 + (10 * days_from_axis_start(
            axis_start_year,
            point,
        ) + 360) / 720,
{
    let days = days_from_axis_start(axis_start_year, point);
    assert((point.year - axis_start_year) * DAYS_PER_YEAR == (point.year - axis_start_year) * 360);
    assert(point.month * DAYS_PER_MONTH == point.month * 30);
    assert(PIXELS_PER_YEAR * days == 5 * days);
}

/// A point at the start of a year lies where the year lies: its distance
/// from the axis start is the number of years times `PIXELS_PER_YEAR`.
pub proof fn lemma_year_point_offset(axis_start_year: u32, year: u32)
    ensures
        spec_x_from_point(axis_start_year as int, SimpleDate { year, month: 0, day: 0 })
            == spec_x_from_year(axis_start_year as int, year as int),
        spec_x_from_point(axis_start_year as int, SimpleDate { year, month: 0, day: 0 })
            - spec_x_from_point(
            axis_start_year as int,
            SimpleDate { year: axis_start_year, month: 0, day: 0 },
        ) == (year - axis_start_year) * PIXELS_PER_YEAR,
{
    lemma_x_from_point_in_numbers(axis_start_year as int, SimpleDate { year, month: 0, day: 0 });
    lemma_x_from_point_in_numbers(
        axis_start_year as int,
        SimpleDate { year: axis_start_year, month: 0, day: 0 },
    );
    assert((year - axis_start_year) * PIXELS_PER_YEAR == (year - axis_start_year) * 5);
}

/// The position of a point is the pixel nearest to its exact place: the two
/// differ by half a pixel at most.
pub proof fn lemma_x_is_nearest_pixel(axis_start_year: int, point: SimpleDate)
    ensures
        ({
            let exact = PIXELS_PER_YEAR * days_from_axis_start(axis_start_year, point);
            let pixel = spec_x_from_point(axis_start_year, point) - SIDE_MARGIN;
            2 * (pixel * DAYS_PER_YEAR - exact) <= DAYS_PER_YEAR
                && 2 * (exact - pixel * DAYS_PER_YEAR) < DAYS_PER_YEAR
        }),
{
    lemma_x_from_point_in_numbers(axis_start_year, point);
    let days = days_from_axis_start(axis_start_year, point);
    let pixel = spec_x_from_point(axis_start_year, point) - SIDE_MARGIN;
    assert(PIXELS_PER_YEAR * days == 5 * days);
    assert(pixel * DAYS_PER_YEAR == pixel * 360);
}

} // verus!
