//! The game calendar: months of thirty days, with year rollover.

use vstd::prelude::*;
use vstd::string::StringExecFns;

verus! {

/// A calendar month, numbered from 1 (January) to 12 (December).
#[derive(Debug, Clone, Copy, PartialEq, Eq)]
pub struct Month(u8);

/// The English name of the month with the given number.
pub open spec fn month_name(number: int) -> Seq<char> {
    if number == 1 {
        "January"@
    } else if number == 2 {
        "February"@
    } else if number == 3 {
        "March"@
    } else if number == 4 {
        "April"@
    } else if number == 5 {
        "May"@
    } else if number == 6 {
        "June"@
    } else if number == 7 {
        "July"@
    } else if number == 8 {
        "August"@
    } else if number == 9 {
        "September"@
    } else if number == 10 {
        "October"@
    } else if number == 11 {
        "November"@
    } else {
        "December"@
    }
}

/// The decimal digit `d`, written out.
pub open spec fn digit_text(d: int) -> Seq<char> {
    if d == 0 {
        "0"@
    } else if d == 1 {
        "1"@
    } else if d == 2 {
        "2"@
    } else if d == 3 {
        "3"@
    } else if d == 4 {
        "4"@
    } else if d == 5 {
        "5"@
    } else if d == 6 {
        "6"@
    } else if d == 7 {
        "7"@
    } else if d == 8 {
        "8"@
    } else {
        "9"@
    }
}

/// A number below 256, written in decimal without leading zeros.
pub open spec fn number_text(n: int) -> Seq<char> {
    if n < 10 {
        digit_text(n)
    } else if n < 100 {
        digit_text(n / 10) + digit_text(n % 10)
    } else {
        digit_text(n / 100) + digit_text((n / 10) % 10) + digit_text(n % 10)
    }
}

/// The message for a month number that is out of range.
pub open spec fn invalid_month_text(month: int) -> Seq<char> {
    "Invalid month: "@ + number_text(month)
}

/// The decimal digit `d`, written out.
fn digit(d: u8) -> (r: &'static str)
    requires
        d < 10,
    ensures
        r@ == digit_text(d as int),
{
    match d {
        0 => "0",
        1 => "1",
        2 => "2",
        3 => "3",
        4 => "4",
        5 => "5",
        6 => "6",
        7 => "7",
        8 => "8",
        _ => "9",
    }
}

/// The message for a month number that is out of range.
fn invalid_month_message(month: u8) -> (r: String)
    ensures
        r@ == invalid_month_text(month as int),
{
    let message = String::from_str("Invalid month: ");
    if month < 10 {
        message.concat(digit(month))
    } else if month < 100 {
        let r = message.concat(digit(month / 10)).concat(digit(month % 10));
        assert(r@ =~= invalid_month_text(month as int));
        r
    } else {
        let r = message.concat(digit(month / 100)).concat(digit((month / 10) % 10)).concat(
            digit(month % 10),
        );
        assert(r@ =~= invalid_month_text(month as int));
        r
    }
}

impl Month {
    #[verifier::type_invariant]
    spec fn in_calendar(self) -> bool {
        1 <= self.0 <= 12
    }

    /// The number of the month.
    pub closed spec fn number(self) -> int {
        self.0 as int
    }

    /// Two months with the same number are the same: a month rebuilt from
    /// its number is the month itself.
    pub proof fn lemma_same_number(self, other: Month)
        requires
            self.number() == other.number(),
        ensures
            self == other,
    {
    }

    /// Makes the month with the given number, which must lie between 1 and 12.
    pub fn new(month: u8) -> (r: Result<Month, String>)
        ensures
            r is Ok <==> 1 <= month <= 12,
            r is Ok ==> r->Ok_0.number() == month,
            r is Err ==> r->Err_0@ == invalid_month_text(month as int),
    {
        if 1 <= month && month <= 12 {
            Ok(Month(month))
        } else {
            Err(invalid_month_message(month))
        }
    }

    /// The number of the month, between 1 and 12.
    pub fn value(&self) -> (r: u8)
        ensures
            r == self.number(),
            1 <= r <= 12,
    {
        proof {
            use_type_invariant(self);
        }
        self.0
    }

    /// The month that follows, and whether the year changes with it.
    pub fn next(&self) -> (r: (Month, bool))
        ensures
            1 <= self.number() <= 12,
            self.number() == 12 ==> r.0.number() == 1 && r.1,
            self.number() != 12 ==> r.0.number() == self.number() + 1 && !r.1,
    {
        proof {
            use_type_invariant(self);
        }
        if self.0 == 12 {
            (Month(1), true)
        } else {
            (Month(self.0 + 1), false)
        }
    }

    /// The English name of the month.
    pub fn name(&self) -> (r: &'static str)
        ensures
            r@ == month_name(self.number()),
    {
        proof {
            use_type_invariant(self);
        }
        match self.0 {
            1 => "January",
            2 => "February",
            3 => "March",
            4 => "April",
            5 => "May",
            6 => "June",
            7 => "July",
            8 => "August",
            9 => "September",
            10 => "October",
            11 => "November",
            _ => "December",
        }
    }
}

/// The date of a game: a year, a month and a day of that month.
#[derive(Debug, Clone, Copy, PartialEq, Eq)]
pub struct GameTime {
    /// The month of the year.
    pub month: Month,
    /// The year.
    pub year: u32,
    /// The day of the month, from 1 to 30.
    pub day: u8,
}

impl GameTime {
    /// The first day of the given month of the given year.
    pub fn new(year: u32, month: u8) -> (r: Result<GameTime, String>)
        ensures
            r is Ok <==> 1 <= month <= 12,
            r is Ok ==> r->Ok_0.month.number() == month && r->Ok_0.year == year && r->Ok_0.day
                == 1,
            r is Err ==> r->Err_0@ == invalid_month_text(month as int),
    {
        match Month::new(month) {
            Ok(m) => Ok(GameTime { month: m, year, day: 1 }),
            Err(e) => Err(e),
        }
    }

    /// The date after a step to the first day of the next month.
    pub open spec fn next_month(self) -> (int, int, int) {
        if self.month.number() == 12 {
            (self.year + 1, 1, 1)
        } else {
            (self.year as int, self.month.number() + 1, 1)
        }
    }

    /// Whether the date is the year, month and day of the triple.
    pub open spec fn reads(self, date: (int, int, int)) -> bool {
        &&& self.year == date.0
        &&& self.month.number() == date.1
        &&& self.day == date.2
    }

    /// Moves to the first day of the next month.
    pub fn advance_month(&mut self)
        requires
            old(self).month.number() == 12 ==> old(self).year < u32::MAX,
        ensures
            final(self).reads(old(self).next_month()),
            1 <= old(self).month.number() <= 12,
    {
        let (next_month, year_changed) = self.month.next();
        self.month = next_month;
        if year_changed {
            self.year += 1;
        }
        self.day = 1;
    }

    /// Moves to the next day; after the 30th comes the first of the next month.
    pub fn advance_day(&mut self)
        requires
            old(self).day >= 30 && old(self).month.number() == 12 ==> old(self).year < u32::MAX,
        ensures
            old(self).day < 30 ==> final(self).reads(
                (old(self).year as int, old(self).month.number(), old(self).day + 1),
            ),
            old(self).day >= 30 ==> final(self).reads(old(self).next_month()),
    {
        if self.day < 30 {
            self.day += 1;
        } else {
            self.advance_month();
        }
    }

    /// The months from the start of `start_year` to the current month, which counts.
    pub fn total_months(&self, start_year: u32) -> (r: u32)
        requires
            start_year <= self.year,
            (self.year - start_year) * 12 + self.month.number() <= u32::MAX,
        ensures
            r == (self.year - start_year) * 12 + self.month.number(),
    {
        let m = self.month.value();
        (self.year - start_year) * 12 + (m as u32)
    }
}

} // verus!
