//! The tick marks of the axis.
//!
//! An axis carries a large, labelled tick at its first and at its last year,
//! and between the two a tick at every year that is a multiple of ten. Of
//! these the centuries are taller and labelled, the other decades short and
//! bare, so that a long axis does not crowd with labels.

use vstd::prelude::*;

use crate::coords::{spec_x_from_year, x_of_year};
use crate::error::LayoutError;
use crate::text::{decimal, decimal_string};

verus! {

/// Half the height of the ticks at the two ends of the axis.
pub const END_RADIUS: u32 = 30;

/// Half the height of a century tick.
pub const NORMAL_RADIUS: u32 = 20;

/// Half the height of a decade tick.
pub const SMALL_RADIUS: u32 = 10;

/// One tick mark: a vertical stroke through the axis at `x` that reaches
/// `radius` pixels up and down, with the text to write under it, if any.
#[derive(Debug, Clone, PartialEq, Eq)]
pub struct Tick {
    pub x: i64,
    pub radius: u32,
    pub label: Option<String>,
}

/// What a `Tick` holds, as mathematical values.
pub struct TickView {
    pub x: int,
    pub radius: nat,
    pub label: Option<Seq<char>>,
}

impl View for Tick {
    type V = TickView;

    open spec fn view(&self) -> TickView {
        TickView {
            x: self.x as int,
            radius: self.radius as nat,
            label: match self.label {
                Some(text) => Some(text@),
                None => None,
            },
        }
    }
}

/// The least multiple of ten that is not less than `number`.
pub open spec fn spec_ceil_nearest_ten(number: int) -> int {
    (number + 9) / 10 * 10
}

/// The year of the first tick inside an axis that starts with `start_year`:
/// the first multiple of ten after it.
pub open spec fn first_decade_after(start_year: int) -> int {
    spec_ceil_nearest_ten(start_year + 1)
}

/// The year of the tick with index `i` among the ticks inside the axis.
pub open spec fn decade_year(start_year: int, i: int) -> int {
    first_decade_after(start_year) + 10 * i
}

/// The number of ticks inside the axis: one for each multiple of ten that
/// lies after `start_year` and before `end_year`.
pub open spec fn decade_tick_count(start_year: int, end_year: int) -> nat {
    let first = first_decade_after(start_year);
    if first < end_year {
        ((end_year - 1 - first) / 10 + 1) as nat
    } else {
        0
    }
}

/// The tick at an end of the axis: large, and labelled with its year.
pub open spec fn boundary_tick(start_year: int, year: int) -> TickView {
    TickView {
        x: spec_x_from_year(start_year, year),
        radius: END_RADIUS as nat,
        label: Some(decimal(year as nat)),
    }
}

/// The tick at a multiple of ten inside the axis: a century is of middle
/// height and labelled with its year, another decade is small and bare.
pub open spec fn decade_tick(start_year: int, year: int) -> TickView {
    if year % 100 == 0 {
        TickView {
            x: spec_x_from_year(start_year, year),
            radius: NORMAL_RADIUS as nat,
            label: Some(decimal(year as nat)),
        }
    } else {
        TickView {
            x: spec_x_from_year(start_year, year),
            radius: SMALL_RADIUS as nat,
            label: None,
        }
    }
}

/// The ticks of an axis from `start_year` to `end_year`: the tick at the
/// start, the tick at the end, then the decades between them in rising order.
pub open spec fn spec_axis_ticks(start_year: int, end_year: int) -> Seq<TickView> {
    seq![boundary_tick(start_year, start_year), boundary_tick(start_year, end_year)] + Seq::new(
        decade_tick_count(start_year, end_year),
        |i: int| decade_tick(start_year, decade_year(start_year, i)),
    )
}

/// The views of the ticks of a list, in its order.
pub open spec fn tick_views(ticks: Seq<Tick>) -> Seq<TickView> {
    ticks.map_values(|tick: Tick| tick@)
}

/// The least multiple of ten that is not less than `number`.
pub fn ceil_nearest_ten(number: u32) -> (r: u64)
    ensures
        r == spec_ceil_nearest_ten(number as int),
        r % 10 == 0,
        number <= r < number + 10,
{
    (number as u64 + 9) / 10 * 10
}

/// The ticks of an axis from `start_year` to `end_year`, or `MalformedPeriod`
/// where the axis would end before it starts.
pub fn axis_ticks(start_year: u32, end_year: u32) -> (r: Result<Vec<Tick>, LayoutError>)
    ensures
        match r {
            Ok(ticks) => start_year <= end_year && tick_views(ticks@) == spec_axis_ticks(
                start_year as int,
                end_year as int,
            ),
            Err(error) => end_year < start_year && error == LayoutError::MalformedPeriod,
        },
{
    if end_year < start_year {
        Err(LayoutError::MalformedPeriod)
    } else {
        Ok(ticks_of_axis(start_year, end_year))
    }
}

/// The ticks of an axis that does not end before it starts.
pub(crate) fn ticks_of_axis(start_year: u32, end_year: u32) -> (ticks: Vec<Tick>)
    requires
        start_year <= end_year,
    ensures
        tick_views(ticks@) == spec_axis_ticks(start_year as int, end_year as int),
{
    let mut ticks: Vec<Tick> = Vec::new();
    ticks.push(boundary(start_year, start_year));
    ticks.push(boundary(start_year, end_year));
    if start_year < end_year {
        let first = ceil_nearest_ten(start_year + 1);
        let ghost count = decade_tick_count(start_year as int, end_year as int);
        let ghost wanted = spec_axis_ticks(start_year as int, end_year as int);
        let mut year = first;
        let mut i: usize = 0;
        while year < end_year as u64
            invariant
                start_year < end_year,
                first == first_decade_after(start_year as int),
                count == decade_tick_count(start_year as int, end_year as int),
                wanted == spec_axis_ticks(start_year as int, end_year as int),
                year == first + 10 * i,
                i <= count,
                year < end_year ==> i < count,
                year >= end_year ==> i == count,
                ticks@.len() == 2 + i,
                forall|j: int| 0 <= j < ticks@.len() ==> (#[trigger] ticks@[j])@ == wanted[j],
            decreases count - i,
        {
            let tick = decade(start_year, year as u32);
            ticks.push(tick);
            year += 10;
            i += 1;
        }
    }
    assert(tick_views(ticks@) =~= spec_axis_ticks(start_year as int, end_year as int));
    ticks
}

/// The tick at an end of the axis.
fn boundary(start_year: u32, year: u32) -> (tick: Tick)
    requires
        start_year <= year,
    ensures
        tick@ == boundary_tick(start_year as int, year as int),
{
    Tick { x: x_of_year(start_year, year), radius: END_RADIUS, label: Some(decimal_string(year)) }
}

/// The tick at a multiple of ten inside the axis.
fn decade(start_year: u32, year: u32) -> (tick: Tick)
    requires
        start_year <= year,
    ensures
        tick@ == decade_tick(start_year as int, year as int),
{
    if year % 100 == 0 {
        Tick {
            x: x_of_year(start_year, year),
            radius: NORMAL_RADIUS,
            label: Some(decimal_string(year)),
        }
    } else {
        Tick { x: x_of_year(start_year, year), radius: SMALL_RADIUS, label: None }
    }
}

/// The ticks inside the axis stand at the multiples of ten that lie after
/// the start year and before the end year, at each of them and nowhere else.
pub proof fn lemma_decade_ticks_are_the_multiples_of_ten(start_year: int, end_year: int, year: int)
    ensures
        (start_year < year < end_year && year % 10 == 0) <==> (exists|i: int|
            0 <= i < decade_tick_count(start_year, end_year) && year == #[trigger] decade_year(
                start_year,
                i,
            )),
{
    let first = first_decade_after(start_year);
    let count = decade_tick_count(start_year, end_year);
    if start_year < year < end_year && year % 10 == 0 {
        let i = (year - first) / 10;
        assert(0 <= i < count && year == decade_year(start_year, i));
    }
}

/// The first two ticks of an axis are the large, labelled ticks of its start
/// and of its end year, whether or not these years are multiples of ten.
pub proof fn lemma_boundary_ticks_come_first(start_year: int, end_year: int)
    ensures
        spec_axis_ticks(start_year, end_year).len() == 2 + decade_tick_count(start_year, end_year),
        spec_axis_ticks(start_year, end_year)[0] == boundary_tick(start_year, start_year),
        spec_axis_ticks(start_year, end_year)[1] == boundary_tick(start_year, end_year),
{
}

/// A tick inside the axis is a labelled tick of middle height where its year
/// is a multiple of a hundred, and a small bare one where it is not.
pub proof fn lemma_only_centuries_are_labelled(start_year: int, end_year: int, i: int)
    requires
        0 <= i < decade_tick_count(start_year, end_year),
    ensures
        ({
            let year = decade_year(start_year, i);
            let tick = spec_axis_ticks(start_year, end_year)[2 + i];
            &&& tick.x == spec_x_from_year(start_year, year)
            &&& year % 100 == 0 ==> tick.radius == NORMAL_RADIUS && tick.label == Some(
                decimal(year as nat),
            )
            &&& year % 100 != 0 ==> tick.radius == SMALL_RADIUS && tick.label.is_none()
        }),
{
}

} // verus!
