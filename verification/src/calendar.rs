//! Business days, recurrences and the occurrences of a schedule.
//!
//! A market calendar is a fixed offset from UTC; its business days are Monday
//! to Friday. A schedule fires at one local time of day, on the business days
//! that its recurrence picks.
use crate::moment;
use crate::moment::{DAY_TICKS, FIRST_DAY, LAST_DAY, MINUTE_TICKS};
use vstd::arithmetic::div_mod::{lemma_fundamental_div_mod, lemma_fundamental_div_mod_converse};
use vstd::prelude::*;

verus! {

/// A day of the week.
#[derive(Clone, Copy, Debug, PartialEq, Eq, Structural)]
pub enum Weekday {
    Mon,
    Tue,
    Wed,
    Thu,
    Fri,
    Sat,
    Sun,
}

impl Weekday {
    /// Days since Monday.
    pub open spec fn index(self) -> int {
        match self {
            Weekday::Mon => 0,
            Weekday::Tue => 1,
            Weekday::Wed => 2,
            Weekday::Thu => 3,
            Weekday::Fri => 4,
            Weekday::Sat => 5,
            Weekday::Sun => 6,
        }
    }

    /// Days since Monday.
    pub fn days_from_monday(self) -> (n: i64)
        ensures
            n == self.index(),
            0 <= n < 7,
    {
        match self {
            Weekday::Mon => 0,
            Weekday::Tue => 1,
            Weekday::Wed => 2,
            Weekday::Thu => 3,
            Weekday::Fri => 4,
            Weekday::Sat => 5,
            Weekday::Sun => 6,
        }
    }

    /// The three-letter lower-case name.
    pub open spec fn name(self) -> Seq<char> {
        match self {
            Weekday::Mon => "mon"@,
            Weekday::Tue => "tue"@,
            Weekday::Wed => "wed"@,
            Weekday::Thu => "thu"@,
            Weekday::Fri => "fri"@,
            Weekday::Sat => "sat"@,
            Weekday::Sun => "sun"@,
        }
    }

    /// The three-letter lower-case name.
    pub fn as_str(self) -> (name: &'static str)
        ensures
            name@ == self.name(),
    {
        match self {
            Weekday::Mon => "mon",
            Weekday::Tue => "tue",
            Weekday::Wed => "wed",
            Weekday::Thu => "thu",
            Weekday::Fri => "fri",
            Weekday::Sat => "sat",
            Weekday::Sun => "sun",
        }
    }
}

/// Days since Monday of a civil date; 1970-01-01 was a Thursday.
pub open spec fn weekday_index(day: int) -> int {
    (day + 3) % 7
}

/// Days since Monday of a civil date.
fn weekday_number(day: i32) -> (weekday: i32)
    requires
        moment::valid_date(day as int),
    ensures
        weekday == weekday_index(day as int),
        0 <= weekday < 7,
{
    (day + 3 + 700_000_000) % 7
}

/// Whether a civil date is a business day.
pub open spec fn is_business_day(day: int) -> bool {
    weekday_index(day) < 5
}

/// The first business day after `day`.
pub open spec fn next_business(day: int) -> int {
    if weekday_index(day) == 4 {
        day + 3
    } else if weekday_index(day) == 5 {
        day + 2
    } else {
        day + 1
    }
}

/// The last business day before `day`.
pub open spec fn previous_business(day: int) -> int {
    if weekday_index(day) == 0 {
        day - 3
    } else if weekday_index(day) == 6 {
        day - 2
    } else {
        day - 1
    }
}

/// How many business days lie strictly between two dates.
pub open spec fn business_between(after: int, before: int) -> nat
    decreases before - after,
{
    if before <= after + 1 {
        0
    } else if is_business_day(before - 1) {
        business_between(after, before - 1) + 1
    } else {
        business_between(after, before - 1)
    }
}

/// Business days of all the weeks up to `day`, counted from a fixed Monday.
spec fn business_rank(day: int) -> int {
    5 * ((day + 3) / 7) + if (day + 3) % 7 < 5 {
        (day + 3) % 7
    } else {
        5
    }
}

/// The rank of a date, counted from far enough back to be positive.
fn rank_of(day: i32) -> (rank: i64)
    requires
        moment::valid_date(day as int),
    ensures
        rank == business_rank(day as int) + 500_000_000,
        0 <= rank <= 1_000_000_000,
{
    let shifted: i64 = day as i64 + 3 + 700_000_000;
    let weeks: i64 = shifted / 7;
    let weekday: i64 = shifted % 7;
    proof {
        let plain = day + 3;
        assert(plain == 7 * (plain / 7) + plain % 7);
        assert(weeks == plain / 7 + 100_000_000 && weekday == plain % 7);
    }
    5 * weeks + if weekday < 5 {
        weekday
    } else {
        5
    }
}

proof fn lemma_business_rank(after: int, before: int)
    requires
        after < before,
    ensures
        business_between(after, before) == business_rank(before) - business_rank(after + 1),
    decreases before - after,
{
    if before > after + 1 {
        lemma_business_rank(after, before - 1);
    }
}

/// The business day after a date, and the one before it, are the nearest.
pub proof fn law_neighbouring_business_days(day: int)
    ensures
        day < next_business(day),
        is_business_day(next_business(day)),
        forall|d: int| day < d < next_business(day) ==> !#[trigger] is_business_day(d),
        previous_business(day) < day,
        is_business_day(previous_business(day)),
        forall|d: int| previous_business(day) < d < day ==> !#[trigger] is_business_day(d),
{
    assert forall|d: int| day < d < next_business(day) implies !#[trigger] is_business_day(d) by {
        assert(d == day + 1 || d == day + 2);
    }
    assert forall|d: int| previous_business(day) < d < day implies !#[trigger] is_business_day(
        d,
    ) by {
        assert(d == day - 1 || d == day - 2);
    }
}

/// From a business day, stepping forth and back (or back and forth) returns
/// to it.
pub proof fn law_business_day_steps_undo_each_other(day: int)
    requires
        is_business_day(day),
    ensures
        previous_business(next_business(day)) == day,
        next_business(previous_business(day)) == day,
{
}

/// Nothing lies between a date and the business day next to it.
pub proof fn law_no_business_days_up_to_the_next(day: int)
    ensures
        business_between(day, next_business(day)) == 0,
{
    reveal_with_fuel(business_between, 4);
}

// ---------------------------------------------------------------- calendar
/// A market's calendar: its local time is UTC plus a fixed offset.
#[derive(Clone, Copy, Debug, PartialEq, Eq, Structural)]
pub struct MarketCalendar {
    pub offset_minutes: i32,
}

impl MarketCalendar {
    /// Whether the offset is less than a day either way.
    pub open spec fn wf(self) -> bool {
        -1440 < self.offset_minutes < 1440
    }

    /// The offset in ticks.
    pub open spec fn offset_ticks(self) -> int {
        self.offset_minutes * MINUTE_TICKS
    }

    /// The local civil date of an instant.
    pub open spec fn day_of(self, ticks: int) -> int {
        (ticks + self.offset_ticks()) / (DAY_TICKS as int)
    }

    /// The Brazilian exchange: America/Sao_Paulo, three hours behind UTC.
    pub fn b3() -> (calendar: MarketCalendar)
        ensures
            calendar.offset_minutes == -180,
            calendar.wf(),
    {
        MarketCalendar { offset_minutes: -180 }
    }

    /// Universal time.
    pub fn utc() -> (calendar: MarketCalendar)
        ensures
            calendar.offset_minutes == 0,
            calendar.wf(),
    {
        MarketCalendar { offset_minutes: 0 }
    }

    /// The local civil date of `ticks`; `None` where the calendar ends.
    pub fn local_date(&self, ticks: i128) -> (day: Option<i32>)
        requires
            self.wf(),
            moment::valid_instant(ticks as int),
        ensures
            day is Some <==> moment::valid_date(self.day_of(ticks as int)),
            day matches Some(d) ==> d == self.day_of(ticks as int),
    {
        let local: i128 = ticks + self.offset_minutes as i128 * MINUTE_TICKS;
        let day: i128 = (local + 100_000_000 * DAY_TICKS) / DAY_TICKS - 100_000_000;
        if FIRST_DAY as i128 <= day && day <= LAST_DAY as i128 {
            Some(day as i32)
        } else {
            None
        }
    }

    /// The first business day after `day`; `None` where the calendar ends.
    pub fn next_business_day(&self, day: i32) -> (next: Option<i32>)
        requires
            moment::valid_date(day as int),
        ensures
            next is Some <==> moment::valid_date(next_business(day as int)),
            next matches Some(n) ==> n == next_business(day as int),
    {
        let weekday: i32 = weekday_number(day);
        let next: i32 = if weekday == 4 {
            day + 3
        } else if weekday == 5 {
            day + 2
        } else {
            day + 1
        };
        if next <= LAST_DAY {
            Some(next)
        } else {
            None
        }
    }

    /// The last business day before `day`; `None` where the calendar begins.
    pub fn previous_business_day(&self, day: i32) -> (previous: Option<i32>)
        requires
            moment::valid_date(day as int),
        ensures
            previous is Some <==> moment::valid_date(previous_business(day as int)),
            previous matches Some(p) ==> p == previous_business(day as int),
    {
        let weekday: i32 = weekday_number(day);
        let previous: i32 = if weekday == 0 {
            day - 3
        } else if weekday == 6 {
            day - 2
        } else {
            day - 1
        };
        if previous >= FIRST_DAY {
            Some(previous)
        } else {
            None
        }
    }

    /// How many business days lie strictly between two dates; zero when
    /// `before` is not the later one.
    pub fn business_days_between(&self, after: i32, before: i32) -> (days: u32)
        requires
            moment::valid_date(after as int),
            moment::valid_date(before as int),
        ensures
            days == business_between(after as int, before as int),
    {
        if before <= after {
            return 0;
        }
        proof {
            lemma_business_rank(after as int, before as int);
        }
        (rank_of(before) - rank_of(after + 1)) as u32
    }
}

/// Every day but Saturday and Sunday is a business day; 1970-01-03 was a
/// Saturday.
pub proof fn law_five_days_of_seven_are_business_days(day: int)
    ensures
        is_business_day(day) <==> (day - 2) % 7 != 0 && (day - 3) % 7 != 0,
        is_business_day(day + 7) == is_business_day(day),
{
}

/// Each day is one weekday further, and Sunday is followed by Monday;
/// 1970-01-01 was a Thursday.
pub proof fn law_weekdays_follow_each_other(day: int)
    ensures
        0 <= weekday_index(day) < 7,
        weekday_index(day + 1) == if weekday_index(day) == 6 {
            0
        } else {
            weekday_index(day) + 1
        },
        weekday_index(0) == Weekday::Thu.index(),
        Weekday::Tue.index() == Weekday::Mon.index() + 1,
        Weekday::Wed.index() == Weekday::Tue.index() + 1,
        Weekday::Thu.index() == Weekday::Wed.index() + 1,
        Weekday::Fri.index() == Weekday::Thu.index() + 1,
        Weekday::Sat.index() == Weekday::Fri.index() + 1,
        Weekday::Sun.index() == Weekday::Sat.index() + 1,
{
}

/// The count of business days between two dates adds up over any date in
/// between, which itself counts where it is one; between neighbours, and
/// where the second date is not the later one, there is none.
pub proof fn law_business_days_add_up(after: int, middle: int, before: int)
    ensures
        before <= after + 1 ==> business_between(after, before) == 0,
        after < middle < before ==> business_between(after, before) == business_between(
            after,
            middle,
        ) + business_between(middle, before) + if (middle - 2) % 7 != 0 && (middle - 3) % 7 != 0 {
            1nat
        } else {
            0nat
        },
    decreases before - middle,
{
    if after < middle && middle + 1 < before {
        law_business_days_add_up(after, middle, before - 1);
    }
}

/// The local date of an instant is the day of 86 400 seconds that it falls in
/// by the local clock.
pub proof fn law_a_local_date_lasts_one_day(calendar: MarketCalendar, ticks: int, day: int)
    ensures
        calendar.day_of(ticks) == day <==> day * 86_400 * 2_000_000_000 <= ticks
            + calendar.offset_minutes * 60 * 2_000_000_000 < (day + 1) * 86_400 * 2_000_000_000,
{
    let local = ticks + calendar.offset_ticks();
    assert(local == ticks + calendar.offset_minutes * 60 * 2_000_000_000);
    assert(DAY_TICKS == 86_400 * 2_000_000_000);
    lemma_fundamental_div_mod(local, DAY_TICKS as int);
    if calendar.day_of(ticks) != day && day * DAY_TICKS <= local < (day + 1) * DAY_TICKS {
        lemma_fundamental_div_mod_converse(local, DAY_TICKS as int, day, local - day * DAY_TICKS);
    }
}

} // verus!
