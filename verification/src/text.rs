//! How years, dates and periods are written out for a reader.

use vstd::prelude::*;
use vstd::string::*;

use crate::timeline_data::{EventTime, SimpleDate, TimePeriod, Timestamp};

verus! {

/// The character that stands for the digit `d`.
pub open spec fn digit_char(d: nat) -> char
    recommends
        d < 10,
{
    if d == 0 {
        '0'
    } else if d == 1 {
        '1'
    } else if d == 2 {
        '2'
    } else if d == 3 {
        '3'
    } else if d == 4 {
        '4'
    } else if d == 5 {
        '5'
    } else if d == 6 {
        '6'
    } else if d == 7 {
        '7'
    } else if d == 8 {
        '8'
    } else {
        '9'
    }
}

/// The digits of `n` in base ten, the most significant first, without
/// leading zeros; `0` is written as one digit.
pub open spec fn decimal(n: nat) -> Seq<char>
    decreases n,
{
    if n < 10 {
        seq![digit_char(n)]
    } else {
        decimal(n / 10).push(digit_char(n % 10))
    }
}

impl SimpleDate {
    /// The date written as month, day and year with a stroke between them.
    pub open spec fn text(&self) -> Seq<char> {
        decimal(self.month as nat) + seq!['/'] + decimal(self.day as nat) + seq!['/'] + decimal(
            self.year as nat,
        )
    }

    pub fn to_string(&self) -> (s: String)
        ensures
            s@ == self.text(),
    {
        let mut s = String::new();
        append_decimal(&mut s, self.month);
        append_stroke(&mut s);
        append_decimal(&mut s, self.day);
        append_stroke(&mut s);
        append_decimal(&mut s, self.year);
        s
    }
}

impl Timestamp {
    /// A bare year written as its number, a full date as `SimpleDate` writes
    /// it.
    pub open spec fn text(&self) -> Seq<char> {
        match self {
            Timestamp::Year(year) => decimal(*year as nat),
            Timestamp::Date(date) => date.text(),
        }
    }

    pub fn to_string(&self) -> (s: String)
        ensures
            s@ == self.text(),
    {
        match self {
            Self::Year(year) => decimal_string(*year),
            Self::Date(date) => date.to_string(),
        }
    }
}

impl TimePeriod {
    /// The start and the end with a dash between two spaces between them.
    pub open spec fn text(&self) -> Seq<char> {
        self.start().text() + seq![' ', '-', ' '] + self.end().text()
    }

    pub fn to_string(&self) -> (s: String)
        ensures
            s@ == self.text(),
    {
        let mut s = self.start().to_string();
        proof {
            reveal_strlit(" - ");
            assert(" - "@ =~= seq![' ', '-', ' ']);
        }
        s.append(" - ");
        let end = self.end().to_string();
        s.append(end.as_str());
        s
    }
}

impl EventTime {
    /// A single timestamp written as `Timestamp` writes it, a period as
    /// `TimePeriod` writes it.
    pub open spec fn text(&self) -> Seq<char> {
        match self {
            EventTime::Single(single) => single.text(),
            EventTime::Period(period) => period.text(),
        }
    }

    pub fn to_string(&self) -> (s: String)
        ensures
            s@ == self.text(),
    {
        match self {
            Self::Single(single) => single.to_string(),
            Self::Period(period) => period.to_string(),
        }
    }
}

/// The number `n` written in base ten.
pub fn decimal_string(n: u32) -> (s: String)
    ensures
        s@ == decimal(n as nat),
{
    let mut s = String::new();
    append_decimal(&mut s, n);
    assert(s@ =~= decimal(n as nat));
    s
}

/// Writes `n` in base ten behind what `text` holds.
pub fn append_decimal(text: &mut String, n: u32)
    ensures
        final(text)@ == old(text)@ + decimal(n as nat),
    decreases n,
{
    if n >= 10 {
        append_decimal(text, n / 10);
    }
    text.append(digit_str(n % 10));
    assert(text@ =~= old(text)@ + decimal(n as nat));
}

fn append_stroke(text: &mut String)
    ensures
        final(text)@ == old(text)@ + seq!['/'],
{
    proof {
        reveal_strlit("/");
        assert("/"@ =~= seq!['/']);
    }
    text.append("/");
}

fn digit_str(d: u32) -> (s: &'static str)
    requires
        d < 10,
    ensures
        s@ == seq![digit_char(d as nat)],
{
    proof {
        reveal_strlit("0");
        reveal_strlit("1");
        reveal_strlit("2");
        reveal_strlit("3");
        reveal_strlit("4");
        reveal_strlit("5");
        reveal_strlit("6");
        reveal_strlit("7");
        reveal_strlit("8");
        reveal_strlit("9");
    }
    let s = if d == 0 {
        "0"
    } else if d == 1 {
        "1"
    } else if d == 2 {
        "2"
    } else if d == 3 {
        "3"
    } else if d == 4 {
        "4"
    } else if d == 5 {
        "5"
    } else if d == 6 {
        "6"
    } else if d == 7 {
        "7"
    } else if d == 8 {
        "8"
    } else {
        "9"
    };
    assert(s@ =~= seq![digit_char(d as nat)]);
    s
}

} // verus!
