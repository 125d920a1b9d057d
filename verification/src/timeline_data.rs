//! The temporal model: calendar dates, timestamps, periods and event times.

use std::cmp::Ordering;
use vstd::prelude::*;
use vstd::std_specs::cmp::PartialOrdSpecImpl;

use crate::error::LayoutError;

verus! {

/// A calendar date as a plain (year, month, day) triple.
///
/// Dates are ordered lexicographically by year, then month, then day.
#[derive(Debug, Clone, Copy, PartialEq, Eq, Structural, Ord)]
pub struct SimpleDate {
    pub year: u32,
    pub month: u32,
    pub day: u32,
}

impl SimpleDate {
    /// `self` is strictly earlier than `other`.
    pub open spec fn precedes(self, other: SimpleDate) -> bool {
        ||| self.year < other.year
        ||| self.year == other.year && self.month < other.month
        ||| self.year == other.year && self.month == other.month && self.day < other.day
    }

    /// `self` is `other` or earlier.
    pub open spec fn at_or_before(self, other: SimpleDate) -> bool {
        self == other || self.precedes(other)
    }

    /// The three-way comparison that `partial_cmp`, `<` and `<=` implement.
    pub open spec fn compare(self, other: SimpleDate) -> Ordering {
        if self.precedes(other) {
            Ordering::Less
        } else if other.precedes(self) {
            Ordering::Greater
        } else {
            Ordering::Equal
        }
    }
}

impl PartialOrd for SimpleDate {
    /// Compares by year, then by month, then by day.
    fn partial_cmp(&self, other: &Self) -> (r: Option<Ordering>) {
        if self.year < other.year {
            Some(Ordering::Less)
        } else if self.year > other.year {
            Some(Ordering::Greater)
        } else if self.month < other.month {
            Some(Ordering::Less)
        } else if self.month > other.month {
            Some(Ordering::Greater)
        } else if self.day < other.day {
            Some(Ordering::Less)
        } else if self.day > other.day {
            Some(Ordering::Greater)
        } else {
            Some(Ordering::Equal)
        }
    }
}

impl PartialOrdSpecImpl for SimpleDate {
    open spec fn obeys_partial_cmp_spec() -> bool {
        true
    }

    open spec fn partial_cmp_spec(&self, other: &Self) -> Option<Ordering> {
        Some(self.compare(*other))
    }
}

/// No date is earlier than itself.
pub proof fn lemma_date_order_irreflexive(a: SimpleDate)
    ensures
        !a.precedes(a),
{
}

/// Two dates are never each earlier than the other.
pub proof fn lemma_date_order_antisymmetric(a: SimpleDate, b: SimpleDate)
    ensures
        !(a.precedes(b) && b.precedes(a)),
        a.at_or_before(b) && b.at_or_before(a) ==> a == b,
{
}

/// Being earlier carries over a middle date.
pub proof fn lemma_date_order_transitive(a: SimpleDate, b: SimpleDate, c: SimpleDate)
    ensures
        a.precedes(b) && b.precedes(c) ==> a.precedes(c),
        a.at_or_before(b) && b.at_or_before(c) ==> a.at_or_before(c),
{
}

/// Of two dates exactly one holds: the first is earlier, they are equal, or
/// the second is earlier.
pub proof fn lemma_date_order_total(a: SimpleDate, b: SimpleDate)
    ensures
        a.precedes(b) || a == b || b.precedes(a),
        a.precedes(b) ==> a != b,
        a.at_or_before(b) <==> !b.precedes(a),
{
}

/// A point in time: a bare year, or a full date.
#[derive(Debug, Clone, Copy, PartialEq, Eq, Structural)]
pub enum Timestamp {
    Year(u32),
    Date(SimpleDate),
}

impl Timestamp {
    /// The date that this timestamp stands for; a bare year is month 0, day 0
    /// of that year.
    pub open spec fn spec_date(&self) -> SimpleDate {
        match self {
            Timestamp::Year(year) => SimpleDate { year: *year, month: 0, day: 0 },
            Timestamp::Date(date) => *date,
        }
    }

    /// The year that this timestamp falls in.
    pub open spec fn spec_year(&self) -> u32 {
        self.spec_date().year
    }

    /// The date that this timestamp stands for.
    #[verifier::when_used_as_spec(spec_date)]
    pub fn date(&self) -> (d: SimpleDate)
        ensures
            d == self.spec_date(),
    {
        match self {
            Timestamp::Year(year) => SimpleDate { year: *year, month: 0, day: 0 },
            Timestamp::Date(date) => *date,
        }
    }

    /// The year that this timestamp falls in.
    #[verifier::when_used_as_spec(spec_year)]
    pub fn year(&self) -> (y: u32)
        ensures
            y == self.spec_year(),
    {
        match self {
            Timestamp::Year(year) => *year,
            Timestamp::Date(date) => date.year,
        }
    }
}

/// How many years before its start and after its end a period still
/// `contains` a date.
pub const CONTAINS_FUZZ_YEARS: u32 = 5;

/// How many years apart two single timestamps may lie and still overlap.
pub const SINGLE_OVERLAP_YEARS: u32 = 10;

/// A span of time from `start` to `end`, both included.
///
/// Every value of this type ends at or after its start: `new` refuses the
/// others.
#[derive(Debug, Clone, Copy, PartialEq, Eq, Structural)]
pub struct TimePeriod {
    start: Timestamp,
    end: Timestamp,
}

impl TimePeriod {
    /// Where the period starts.
    pub closed spec fn spec_start(&self) -> Timestamp {
        self.start
    }

    /// Where the period ends.
    pub closed spec fn spec_end(&self) -> Timestamp {
        self.end
    }

    /// The period does not end before it starts.
    #[verifier::type_invariant]
    pub open spec fn well_formed(&self) -> bool {
        self.spec_start().date().at_or_before(self.spec_end().date())
    }

    /// `date` lies in the period, from the date of its start to the date of
    /// its end, both included.
    pub open spec fn spec_covers(&self, date: &SimpleDate) -> bool {
        self.spec_start().date().at_or_before(*date) && date.at_or_before(self.spec_end().date())
    }

    /// `date` lies in the period widened by `CONTAINS_FUZZ_YEARS` on both
    /// sides, counted in whole years. The slack serves to keep events apart
    /// that are close in time; it has no part in where anything is drawn.
    pub open spec fn spec_contains(&self, date: &SimpleDate) -> bool {
        self.spec_start().year() - CONTAINS_FUZZ_YEARS <= date.year <= self.spec_end().year()
            + CONTAINS_FUZZ_YEARS
    }

    /// The two periods share at least one date.
    pub open spec fn spec_overlaps(&self, other: &TimePeriod) -> bool {
        &&& self.spec_start().date().at_or_before(other.spec_end().date())
        &&& other.spec_start().date().at_or_before(self.spec_end().date())
    }

    /// The number of years from the start's year to the end's year.
    pub open spec fn spec_years(&self) -> int {
        self.spec_end().year() - self.spec_start().year()
    }

    /// The period from `start` to `end`, or `MalformedPeriod` where `end`
    /// lies before `start`.
    pub fn new(start: Timestamp, end: Timestamp) -> (r: Result<TimePeriod, LayoutError>)
        ensures
            match r {
                Ok(period) => {
                    &&& !end.date().precedes(start.date())
                    &&& period.start() == start
                    &&& period.end() == end
                    &&& period.well_formed()
                },
                Err(error) => {
                    &&& end.date().precedes(start.date())
                    &&& error == LayoutError::MalformedPeriod
                },
            },
    {
        if end.date() < start.date() {
            Err(LayoutError::MalformedPeriod)
        } else {
            Ok(TimePeriod { start, end })
        }
    }

    /// Where the period starts.
    #[verifier::when_used_as_spec(spec_start)]
    pub fn start(&self) -> (t: Timestamp)
        ensures
            t == self.spec_start(),
    {
        self.start
    }

    /// Where the period ends.
    #[verifier::when_used_as_spec(spec_end)]
    pub fn end(&self) -> (t: Timestamp)
        ensures
            t == self.spec_end(),
    {
        self.end
    }

    /// Whether `date` lies in the period, its two bounds included.
    #[verifier::when_used_as_spec(spec_covers)]
    pub fn covers(&self, date: &SimpleDate) -> (r: bool)
        ensures
            r == self.spec_covers(date),
    {
        self.start.date() <= *date && *date <= self.end.date()
    }

    /// Whether `date` lies in the period or within `CONTAINS_FUZZ_YEARS`
    /// years of it.
    #[verifier::when_used_as_spec(spec_contains)]
    pub fn contains(&self, date: &SimpleDate) -> (r: bool)
        ensures
            r == self.spec_contains(date),
    {
        let first = self.start.year();
        let last = self.end.year();
        (first <= date.year || first - date.year <= CONTAINS_FUZZ_YEARS) && (date.year <= last
            || date.year - last <= CONTAINS_FUZZ_YEARS)
    }

    /// Whether the two periods share at least one date.
    #[verifier::when_used_as_spec(spec_overlaps)]
    pub fn overlaps(&self, other: &Self) -> (r: bool)
        ensures
            r == self.spec_overlaps(other),
    {
        let self_start = self.start.date();
        let self_end = self.end.date();

        let other_start = other.start.date();
        let other_end = other.end.date();

        self_start <= other_end && other_start <= self_end
    }

    /// The number of years from the start's year to the end's year.
    pub fn years(&self) -> (n: u32)
        ensures
            n == self.spec_years(),
    {
        proof {
            use_type_invariant(self);
        }
        self.end.year() - self.start.year()
    }
}

/// When an event took place: at one point in time, or over a period.
#[derive(Debug, Clone, Copy, PartialEq, Eq, Structural)]
pub enum EventTime {
    Single(Timestamp),
    Period(TimePeriod),
}

impl EventTime {
    /// Whether two events are close enough in time to need separate lanes.
    ///
    /// Two single timestamps overlap when their years lie at most
    /// `SINGLE_OVERLAP_YEARS` apart; a single timestamp and a period when the
    /// period `contains` the timestamp's date; two periods when they share a
    /// date.
    pub open spec fn spec_overlaps(&self, other: &EventTime) -> bool {
        match (self, other) {
            (EventTime::Single(time), EventTime::Single(time2)) => {
                -SINGLE_OVERLAP_YEARS <= time.year() - time2.year() <= SINGLE_OVERLAP_YEARS
            },
            (EventTime::Single(time), EventTime::Period(period)) => period.contains(&time.date()),
            (EventTime::Period(period), EventTime::Single(time)) => period.contains(&time.date()),
            (EventTime::Period(period), EventTime::Period(period2)) => period.overlaps(period2),
        }
    }

    /// The earliest date of the event.
    pub open spec fn spec_start_date(&self) -> SimpleDate {
        match self {
            EventTime::Single(time) => time.date(),
            EventTime::Period(period) => period.start().date(),
        }
    }

    /// The latest date of the event.
    pub open spec fn spec_end_date(&self) -> SimpleDate {
        match self {
            EventTime::Single(time) => time.date(),
            EventTime::Period(period) => period.end().date(),
        }
    }

    /// How many years the event spans: none for a single timestamp.
    pub open spec fn spec_duration_years(&self) -> int {
        match self {
            EventTime::Single(_) => 0,
            EventTime::Period(period) => period.spec_years(),
        }
    }

    /// Whether the two events are close enough in time to need separate
    /// lanes.
    #[verifier::when_used_as_spec(spec_overlaps)]
    pub fn overlaps(&self, other: &Self) -> (r: bool)
        ensures
            r == self.spec_overlaps(other),
    {
        match self {
            Self::Single(time) => match other {
                Self::Single(time2) => {
                    let (y1, y2) = (time.year(), time2.year());
                    if y1 <= y2 {
                        y2 - y1 <= SINGLE_OVERLAP_YEARS
                    } else {
                        y1 - y2 <= SINGLE_OVERLAP_YEARS
                    }
                },
                Self::Period(period) => period.contains(&time.date()),
            },
            Self::Period(period) => match other {
                Self::Single(time) => period.contains(&time.date()),
                Self::Period(period2) => period.overlaps(period2),
            },
        }
    }

    /// The earliest date of the event.
    #[verifier::when_used_as_spec(spec_start_date)]
    pub fn start_date(&self) -> (d: SimpleDate)
        ensures
            d == self.spec_start_date(),
    {
        match self {
            Self::Single(time) => time.date(),
            Self::Period(period) => period.start.date(),
        }
    }

    /// The latest date of the event.
    #[verifier::when_used_as_spec(spec_end_date)]
    pub fn end_date(&self) -> (d: SimpleDate)
        ensures
            d == self.spec_end_date(),
    {
        match self {
            Self::Single(time) => time.date(),
            Self::Period(period) => period.end.date(),
        }
    }

    /// How many years the event spans: none for a single timestamp.
    pub fn duration_years(&self) -> (n: u32)
        ensures
            n == self.spec_duration_years(),
    {
        match self {
            Self::Single(_) => 0,
            Self::Period(period) => period.years(),
        }
    }
}

/// One event of the timeline.
#[derive(Debug, Clone, PartialEq)]
pub struct TimelineEvent {
    pub title: String,
    pub summary: String,
    pub link: String,
    pub time: EventTime,
    pub color: String,
}

/// The color of an event that names none.
pub fn default_color() -> (color: String)
    ensures
        color@ == "green"@,
{
    "green".to_owned()
}

/// The events of a timeline, in the order in which they are laid out.
pub type TimelineEvents = Vec<TimelineEvent>;

/// A whole timeline: the period that the axis covers, and the events in the
/// order in which they are laid out.
#[derive(Debug, Clone, PartialEq)]
pub struct TimelineData {
    pub time_period: TimePeriod,
    pub events: TimelineEvents,
}

/// Whether one period overlaps another does not depend on which of the two
/// is asked.
pub proof fn lemma_period_overlaps_symmetric(a: TimePeriod, b: TimePeriod)
    ensures
        a.overlaps(&b) == b.overlaps(&a),
{
}

/// Every period overlaps itself, one of no length too.
pub proof fn lemma_period_overlaps_itself(a: TimePeriod)
    requires
        a.well_formed(),
    ensures
        a.overlaps(&a),
{
}

/// Two periods overlap exactly when some date lies in both of them.
pub proof fn lemma_overlapping_periods_share_a_date(a: TimePeriod, b: TimePeriod)
    requires
        a.well_formed(),
        b.well_formed(),
    ensures
        a.overlaps(&b) <==> exists|date: SimpleDate|
            #[trigger] a.covers(&date) && b.covers(&date),
{
    if a.overlaps(&b) {
        let date = if a.start().date().precedes(b.start().date()) {
            b.start().date()
        } else {
            a.start().date()
        };
        assert(a.covers(&date) && b.covers(&date));
    }
}

/// A period contains each date that lies in it: a timestamp at the very
/// start or end of a period overlaps the period.
pub proof fn lemma_period_contains_its_dates(a: TimePeriod, date: SimpleDate)
    requires
        a.covers(&date),
    ensures
        a.contains(&date),
        EventTime::Period(a).overlaps(&EventTime::Single(Timestamp::Date(date))),
        EventTime::Single(Timestamp::Date(date)).overlaps(&EventTime::Period(a)),
{
}

/// Two single timestamps overlap exactly when their years lie at most ten
/// apart.
pub proof fn lemma_singles_overlap_within_ten_years(a: Timestamp, b: Timestamp)
    ensures
        EventTime::Single(a).overlaps(&EventTime::Single(b)) <==> vstd::math::abs(
            a.year() - b.year(),
        ) <= 10,
{
}

/// Whether one event time overlaps another does not depend on which of the
/// two is asked.
pub proof fn lemma_event_overlaps_symmetric(a: EventTime, b: EventTime)
    ensures
        a.overlaps(&b) == b.overlaps(&a),
{
}

} // verus!
