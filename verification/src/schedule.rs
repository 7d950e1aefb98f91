//! Schedules: when recurring work is due and which dates a run covers.
use crate::calendar::{
    is_business_day, law_business_day_steps_undo_each_other, law_neighbouring_business_days,
    next_business, previous_business, weekday_index, MarketCalendar, Weekday,
};
use crate::moment::{ClockTime, DAY_TICKS, MINUTE_TICKS};
use crate::moment;
use crate::text;
use vstd::arithmetic::div_mod::{
    lemma_fundamental_div_mod, lemma_fundamental_div_mod_converse, lemma_mod_multiples_basic,
    lemma_mod_multiples_vanish,
};
use vstd::prelude::*;

verus! {

/// Which business days a schedule fires on.
#[derive(Clone, Copy, Debug, PartialEq, Eq, Structural)]
pub enum Recurrence {
    Daily,
    Weekly { on: Weekday },
}

/// `daily`, or `weekly:` and the day.
pub open spec fn recurrence_text(recurrence: Recurrence) -> Seq<char> {
    match recurrence {
        Recurrence::Daily => "daily"@,
        Recurrence::Weekly { on } => "weekly:"@ + on.name(),
    }
}

/// The recurrence that a text spells exactly.
pub open spec fn recurrence_spelled(text: Seq<char>) -> Option<Recurrence> {
    if text == "daily"@ {
        Some(Recurrence::Daily)
    } else if text == "weekly:mon"@ {
        Some(Recurrence::Weekly { on: Weekday::Mon })
    } else if text == "weekly:tue"@ {
        Some(Recurrence::Weekly { on: Weekday::Tue })
    } else if text == "weekly:wed"@ {
        Some(Recurrence::Weekly { on: Weekday::Wed })
    } else if text == "weekly:thu"@ {
        Some(Recurrence::Weekly { on: Weekday::Thu })
    } else if text == "weekly:fri"@ {
        Some(Recurrence::Weekly { on: Weekday::Fri })
    } else if text == "weekly:sat"@ {
        Some(Recurrence::Weekly { on: Weekday::Sat })
    } else if text == "weekly:sun"@ {
        Some(Recurrence::Weekly { on: Weekday::Sun })
    } else {
        None
    }
}

impl Recurrence {
    /// Writes the recurrence as `daily` or `weekly:<day>`.
    pub fn to_text(self) -> (out: String)
        ensures
            out@ == recurrence_text(self),
    {
        match self {
            Recurrence::Daily => "daily".to_owned(),
            Recurrence::Weekly { on } => "weekly:".to_owned().concat(on.as_str()),
        }
    }

    /// Reads what [`Recurrence::to_text`] writes, and nothing else.
    pub fn from_text(raw: &str) -> (recurrence: Option<Recurrence>)
        ensures
            recurrence == recurrence_spelled(raw@),
    {
        if text::same_text(raw, "daily") {
            Some(Recurrence::Daily)
        } else if text::same_text(raw, "weekly:mon") {
            Some(Recurrence::Weekly { on: Weekday::Mon })
        } else if text::same_text(raw, "weekly:tue") {
            Some(Recurrence::Weekly { on: Weekday::Tue })
        } else if text::same_text(raw, "weekly:wed") {
            Some(Recurrence::Weekly { on: Weekday::Wed })
        } else if text::same_text(raw, "weekly:thu") {
            Some(Recurrence::Weekly { on: Weekday::Thu })
        } else if text::same_text(raw, "weekly:fri") {
            Some(Recurrence::Weekly { on: Weekday::Fri })
        } else if text::same_text(raw, "weekly:sat") {
            Some(Recurrence::Weekly { on: Weekday::Sat })
        } else if text::same_text(raw, "weekly:sun") {
            Some(Recurrence::Weekly { on: Weekday::Sun })
        } else {
            None
        }
    }
}

proof fn lemma_weekly_spelled(on: Weekday)
    ensures
        recurrence_text(Recurrence::Weekly { on }) == (match on {
            Weekday::Mon => "weekly:mon"@,
            Weekday::Tue => "weekly:tue"@,
            Weekday::Wed => "weekly:wed"@,
            Weekday::Thu => "weekly:thu"@,
            Weekday::Fri => "weekly:fri"@,
            Weekday::Sat => "weekly:sat"@,
            Weekday::Sun => "weekly:sun"@,
        }),
{
    reveal_strlit("weekly:");
    reveal_strlit("mon");
    reveal_strlit("tue");
    reveal_strlit("wed");
    reveal_strlit("thu");
    reveal_strlit("fri");
    reveal_strlit("sat");
    reveal_strlit("sun");
    reveal_strlit("weekly:mon");
    reveal_strlit("weekly:tue");
    reveal_strlit("weekly:wed");
    reveal_strlit("weekly:thu");
    reveal_strlit("weekly:fri");
    reveal_strlit("weekly:sat");
    reveal_strlit("weekly:sun");
    match on {
        Weekday::Mon => assert("weekly:"@ + "mon"@ =~= "weekly:mon"@),
        Weekday::Tue => assert("weekly:"@ + "tue"@ =~= "weekly:tue"@),
        Weekday::Wed => assert("weekly:"@ + "wed"@ =~= "weekly:wed"@),
        Weekday::Thu => assert("weekly:"@ + "thu"@ =~= "weekly:thu"@),
        Weekday::Fri => assert("weekly:"@ + "fri"@ =~= "weekly:fri"@),
        Weekday::Sat => assert("weekly:"@ + "sat"@ =~= "weekly:sat"@),
        Weekday::Sun => assert("weekly:"@ + "sun"@ =~= "weekly:sun"@),
    }
}

/// A recurrence reads back from its own text.
pub proof fn law_recurrence_text_reads_back(recurrence: Recurrence)
    ensures
        recurrence_spelled(recurrence_text(recurrence)) == Some(recurrence),
{
    reveal_strlit("daily");
    reveal_strlit("weekly:mon");
    reveal_strlit("weekly:tue");
    reveal_strlit("weekly:wed");
    reveal_strlit("weekly:thu");
    reveal_strlit("weekly:fri");
    reveal_strlit("weekly:sat");
    reveal_strlit("weekly:sun");
    if let Recurrence::Weekly { on } = recurrence {
        lemma_weekly_spelled(on);
        let spelled = recurrence_text(recurrence);
        assert("daily"@.len() == 5);
        assert("weekly:mon"@[7] == 'm' && "weekly:mon"@[8] == 'o');
        assert("weekly:tue"@[7] == 't' && "weekly:tue"@[8] == 'u');
        assert("weekly:wed"@[7] == 'w');
        assert("weekly:thu"@[7] == 't' && "weekly:thu"@[8] == 'h');
        assert("weekly:fri"@[7] == 'f');
        assert("weekly:sat"@[7] == 's' && "weekly:sat"@[8] == 'a');
        assert("weekly:sun"@[7] == 's' && "weekly:sun"@[8] == 'u');
    }
}

/// The civil dates one run covers, both ends included.
#[derive(Clone, Copy, Debug, PartialEq, Eq, Structural)]
pub struct TargetPeriod {
    pub from: i32,
    pub to: i32,
}

impl TargetPeriod {
    /// Whether both ends are dates of the calendar, in order.
    pub open spec fn wf(self) -> bool {
        moment::valid_date(self.from as int) && moment::valid_date(self.to as int) && self.from
            <= self.to
    }
}

/// One local time of day on the business days that a recurrence picks.
#[derive(Clone, Copy, Debug, PartialEq, Eq, Structural)]
pub struct Schedule {
    pub calendar: MarketCalendar,
    pub at: ClockTime,
    pub recurrence: Recurrence,
}

impl Schedule {
    /// Whether calendar and time of day are well formed.
    pub open spec fn wf(self) -> bool {
        self.calendar.wf() && self.at.wf()
    }

    /// Ticks from local midnight UTC-dated to the local time of day.
    pub open spec fn base(self) -> int {
        (self.at.hour * 60 + self.at.minute) * MINUTE_TICKS - self.calendar.offset_ticks()
    }

    /// The instant at which the schedule's time of day falls on a local date.
    pub open spec fn slot_on(self, day: int) -> int {
        day * DAY_TICKS + self.base()
    }

    /// Whether the schedule fires on a local date.
    pub open spec fn fires_on(self, day: int) -> bool {
        is_business_day(day) && (self.recurrence matches Recurrence::Weekly { on }
            ==> weekday_index(day) == on.index())
    }

    /// Whether an instant is an occurrence of the schedule.
    pub open spec fn is_occurrence(self, ticks: int) -> bool {
        exists|day: int| #[trigger] self.fires_on(day) && ticks == self.slot_on(day)
    }

    /// The first date from `day` on that the schedule fires on.
    pub open spec fn first_day(self, day: int) -> Option<int> {
        match self.recurrence {
            Recurrence::Daily => Some(
                if is_business_day(day) {
                    day
                } else {
                    next_business(day)
                },
            ),
            Recurrence::Weekly { on } => if on.index() < 5 {
                Some(day + (on.index() - weekday_index(day)) % 7)
            } else {
                None
            },
        }
    }

    /// The last date up to `day` that the schedule fires on.
    pub open spec fn last_day(self, day: int) -> Option<int> {
        match self.recurrence {
            Recurrence::Daily => Some(
                if is_business_day(day) {
                    day
                } else {
                    previous_business(day)
                },
            ),
            Recurrence::Weekly { on } => if on.index() < 5 {
                Some(day - (weekday_index(day) - on.index()) % 7)
            } else {
                None
            },
        }
    }

    /// The first occurrence after an instant, within the calendar.
    pub open spec fn next_slot(self, after: int) -> Option<int> {
        match self.first_day((after - self.base()) / (DAY_TICKS as int) + 1) {
            Some(day) => if moment::valid_instant(self.slot_on(day)) {
                Some(self.slot_on(day))
            } else {
                None
            },
            None => None,
        }
    }

    /// The last occurrence before an instant, within the calendar.
    pub open spec fn latest_slot(self, before: int) -> Option<int> {
        match self.last_day((before - 1 - self.base()) / (DAY_TICKS as int)) {
            Some(day) => if moment::valid_instant(self.slot_on(day)) {
                Some(self.slot_on(day))
            } else {
                None
            },
            None => None,
        }
    }

    /// The dates a run at `slot` covers after everything up to
    /// `through_target` was covered; `None` when nothing is left to cover.
    pub open spec fn period(self, through_target: int, slot: int) -> Option<(int, int)> {
        let from = next_business(through_target);
        let to = previous_business(self.calendar.day_of(slot));
        if moment::valid_date(from) && moment::valid_date(self.calendar.day_of(slot))
            && moment::valid_date(to) && from <= to {
            Some((from, to))
        } else {
            None
        }
    }

    pub fn new(calendar: MarketCalendar, at: ClockTime, recurrence: Recurrence) -> (schedule:
        Schedule)
        ensures
            schedule.calendar == calendar,
            schedule.at == at,
            schedule.recurrence == recurrence,
    {
        Schedule { calendar, at, recurrence }
    }

    pub fn calendar(&self) -> (calendar: MarketCalendar)
        ensures
            calendar == self.calendar,
    {
        self.calendar
    }

    pub fn at(&self) -> (at: ClockTime)
        ensures
            at == self.at,
    {
        self.at
    }

    pub fn recurrence(&self) -> (recurrence: Recurrence)
        ensures
            recurrence == self.recurrence,
    {
        self.recurrence
    }

    fn base_ticks(&self) -> (base: i128)
        requires
            self.wf(),
        ensures
            base == self.base(),
            -DAY_TICKS < base < 2 * DAY_TICKS,
    {
        let clock: i128 = (self.at.hour as i128 * 60 + self.at.minute as i128) * MINUTE_TICKS;
        clock - self.calendar.offset_minutes as i128 * MINUTE_TICKS
    }

    /// The first occurrence strictly after `after`; `None` for a schedule
    /// that never fires and where the calendar ends.
    pub fn next_occurrence_after(&self, after: i128) -> (slot: Option<i128>)
        requires
            self.wf(),
            moment::valid_instant(after as int),
        ensures
            slot is Some <==> self.next_slot(after as int) is Some,
            slot matches Some(s) ==> self.next_slot(after as int) == Some(s as int)
                && moment::valid_instant(s as int),
    {
        let base: i128 = self.base_ticks();
        let first: i128 = floor_days(after - base) + 1;
        let weekday: i128 = weekday_of(first);
        let day: i128 = match self.recurrence {
            Recurrence::Daily => if weekday < 5 {
                first
            } else if weekday == 5 {
                first + 2
            } else {
                first + 1
            },
            Recurrence::Weekly { on } => {
                let on: i128 = on.days_from_monday() as i128;
                if on >= 5 {
                    return None;
                }
                first + (on - weekday + 7) % 7
            },
        };
        let slot: i128 = day * DAY_TICKS + base;
        if moment::is_instant(slot) {
            Some(slot)
        } else {
            None
        }
    }

    /// The last occurrence strictly before `before`; `None` for a schedule
    /// that never fires and where the calendar begins.
    pub fn latest_occurrence_before(&self, before: i128) -> (slot: Option<i128>)
        requires
            self.wf(),
            moment::valid_instant(before as int),
        ensures
            slot is Some <==> self.latest_slot(before as int) is Some,
            slot matches Some(s) ==> self.latest_slot(before as int) == Some(s as int)
                && moment::valid_instant(s as int),
    {
        let base: i128 = self.base_ticks();
        let last: i128 = floor_days(before - 1 - base);
        let weekday: i128 = weekday_of(last);
        let day: i128 = match self.recurrence {
            Recurrence::Daily => if weekday < 5 {
                last
            } else if weekday == 5 {
                last - 1
            } else {
                last - 2
            },
            Recurrence::Weekly { on } => {
                let on: i128 = on.days_from_monday() as i128;
                if on >= 5 {
                    return None;
                }
                last - (weekday - on + 7) % 7
            },
        };
        let slot: i128 = day * DAY_TICKS + base;
        if moment::is_instant(slot) {
            Some(slot)
        } else {
            None
        }
    }

    /// The business days after `through_target` and before the local date of
    /// `slot`; `None` when there are none.
    pub fn target_period(&self, through_target: i32, slot: i128) -> (period: Option<TargetPeriod>)
        requires
            self.wf(),
            moment::valid_date(through_target as int),
            moment::valid_instant(slot as int),
        ensures
            period is Some <==> self.period(through_target as int, slot as int) is Some,
            period matches Some(p) ==> p.wf() && self.period(through_target as int, slot as int)
                == Some((p.from as int, p.to as int)),
    {
        let from: i32 = match self.calendar.next_business_day(through_target) {
            Some(day) => day,
            None => {
                return None;
            },
        };
        let date: i32 = match self.calendar.local_date(slot) {
            Some(day) => day,
            None => {
                return None;
            },
        };
        let to: i32 = match self.calendar.previous_business_day(date) {
            Some(day) => day,
            None => {
                return None;
            },
        };
        if from <= to {
            Some(TargetPeriod { from, to })
        } else {
            None
        }
    }
}

/// Whole days in `ticks`, rounded down.
fn floor_days(ticks: i128) -> (days: i128)
    requires
        -100_000_000 * DAY_TICKS <= ticks <= 100_000_000 * DAY_TICKS,
    ensures
        days == ticks as int / (DAY_TICKS as int),
        -100_000_000 <= days <= 100_000_000,
{
    (ticks + 100_000_000 * DAY_TICKS) / DAY_TICKS - 100_000_000
}

/// Days since Monday.
fn weekday_of(day: i128) -> (weekday: i128)
    requires
        -200_000_000 <= day <= 200_000_000,
    ensures
        weekday == weekday_index(day as int),
        0 <= weekday < 7,
{
    (day + 3 + 700_000_000) % 7
}

// ---------------------------------------------------------------- laws
proof fn lemma_first_day(schedule: Schedule, from: int, day: int)
    requires
        schedule.fires_on(day),
        from <= day,
    ensures
        schedule.first_day(from) is Some,
        schedule.first_day(from)->0 <= day,
{
}

proof fn lemma_first_day_fires(schedule: Schedule, from: int)
    requires
        schedule.first_day(from) is Some,
    ensures
        from <= schedule.first_day(from)->0,
        schedule.fires_on(schedule.first_day(from)->0),
{
}

proof fn lemma_last_day(schedule: Schedule, to: int, day: int)
    requires
        schedule.fires_on(day),
        day <= to,
    ensures
        schedule.last_day(to) is Some,
        day <= schedule.last_day(to)->0,
{
}

proof fn lemma_last_day_fires(schedule: Schedule, to: int)
    requires
        schedule.last_day(to) is Some,
    ensures
        schedule.last_day(to)->0 <= to,
        schedule.fires_on(schedule.last_day(to)->0),
{
}

/// An occurrence starts a second: it is an instant wherever the calendar
/// reaches it.
proof fn lemma_slot_starts_a_second(schedule: Schedule, day: int)
    ensures
        schedule.slot_on(day) % (moment::SECOND_TICKS as int) == 0,
        moment::valid_instant(schedule.slot_on(day)) <==> moment::FIRST_INSTANT
            <= schedule.slot_on(day) <= moment::LAST_INSTANT,
        schedule.slot_on(day) % (moment::MILLI_TICKS as int) == 0,
{
    let second = day * 86_400 + (schedule.at.hour * 60 + schedule.at.minute) * 60
        - schedule.calendar.offset_minutes * 60;
    let slot = schedule.slot_on(day);
    assert(slot == second * moment::SECOND_TICKS);
    assert(slot == second * 2000 * moment::MILLI_TICKS);
    lemma_mod_multiples_basic(second, moment::SECOND_TICKS as int);
    lemma_mod_multiples_basic(
        second * 2000,
        moment::MILLI_TICKS as int,
    );
}

/// An occurrence starts a second, so an instant that was cut to the
/// millisecond has the next occurrence that it had.
pub proof fn law_storing_keeps_the_next_occurrence(schedule: Schedule, after: int)
    ensures
        schedule.next_slot(moment::stored_instant(after)) == schedule.next_slot(after),
        forall|slot: int|
            schedule.is_occurrence(slot) ==> #[trigger] moment::stored_instant(slot) == slot,
{
    let base = schedule.base();
    assert(base == schedule.slot_on(0));
    lemma_slot_starts_a_second(schedule, 0);
    lemma_cut_keeps_the_day(after, base);
    assert forall|slot: int| schedule.is_occurrence(slot) implies #[trigger]
        moment::stored_instant(slot) == slot by {
        let day = choose|day: int| #[trigger]
            schedule.fires_on(day) && slot == schedule.slot_on(day);
        lemma_slot_starts_a_second(schedule, day);
    }
}

/// Cutting to the millisecond crosses no boundary between days that start on
/// a whole millisecond.
proof fn lemma_cut_keeps_the_day(after: int, base: int)
    requires
        base % (moment::MILLI_TICKS as int) == 0,
    ensures
        (moment::whole_millis(after) - base) / (DAY_TICKS as int) == (after - base) / (
        DAY_TICKS as int),
{
    let milli = moment::MILLI_TICKS as int;
    let past = after - base;
    lemma_fundamental_div_mod(base, milli);
    lemma_mod_multiples_vanish(-(base / milli), after, milli);
    assert(past == milli * -(base / milli) + after);
    moment::lemma_cut(past, milli, 172_800_000);
}

/// The next occurrence is the first one strictly after the instant: none
/// lies between, and where there is none, none lies ahead.
pub proof fn law_next_occurrence_is_the_first_after(schedule: Schedule, after: int)
    requires
        schedule.wf(),
    ensures
        schedule.next_slot(after) matches Some(slot) ==> {
            &&& after < slot
            &&& schedule.is_occurrence(slot)
            &&& forall|ticks: int| after < ticks < slot ==> !#[trigger] schedule.is_occurrence(ticks)
        },
        schedule.next_slot(after) is None && moment::valid_instant(after) ==> forall|ticks: int|
            after < ticks && moment::valid_instant(ticks) ==> !#[trigger] schedule.is_occurrence(ticks),
{
    let first = (after - schedule.base()) / (DAY_TICKS as int) + 1;
    if schedule.first_day(first) is Some {
        lemma_first_day_fires(schedule, first);
        lemma_slot_starts_a_second(schedule, schedule.first_day(first)->0);
    }
    assert forall|ticks: int| after < ticks && #[trigger] schedule.is_occurrence(ticks) implies (
    schedule.first_day(first) matches Some(day) && schedule.slot_on(day) <= ticks) by {
        let day = choose|day: int| #[trigger]
            schedule.fires_on(day) && ticks == schedule.slot_on(day);
        assert(first <= day);
        lemma_first_day(schedule, first, day);
    }
}

/// The latest occurrence is the last one strictly before the instant: none
/// lies between, and where there is none, none lies behind.
pub proof fn law_latest_occurrence_is_the_last_before(schedule: Schedule, before: int)
    requires
        schedule.wf(),
    ensures
        schedule.latest_slot(before) matches Some(slot) ==> {
            &&& slot < before
            &&& schedule.is_occurrence(slot)
            &&& forall|ticks: int| slot < ticks < before ==> !#[trigger] schedule.is_occurrence(ticks)
        },
        schedule.latest_slot(before) is None && moment::valid_instant(before) ==> forall|ticks: int|
            ticks < before && moment::valid_instant(ticks) ==> !#[trigger] schedule.is_occurrence(ticks),
{
    let last = (before - 1 - schedule.base()) / (DAY_TICKS as int);
    if schedule.last_day(last) is Some {
        lemma_last_day_fires(schedule, last);
        lemma_slot_starts_a_second(schedule, schedule.last_day(last)->0);
    }
    assert forall|ticks: int| ticks < before && #[trigger] schedule.is_occurrence(ticks) implies (
    schedule.last_day(last) matches Some(day) && ticks <= schedule.slot_on(day)) by {
        let day = choose|day: int| #[trigger]
            schedule.fires_on(day) && ticks == schedule.slot_on(day);
        assert(day <= last);
        lemma_last_day(schedule, last, day);
    }
}

/// A slot falls, in local time, on the date it was made for.
pub proof fn law_slot_falls_on_its_own_date(schedule: Schedule, day: int)
    requires
        schedule.wf(),
    ensures
        schedule.calendar.day_of(schedule.slot_on(day)) == day,
{
}

/// A daily schedule catches up one business day per run: after the run of
/// one business day, which covered everything before it, the next slot is
/// that of the next business day and covers exactly the day between.
pub proof fn law_daily_catch_up_covers_one_day_per_slot(schedule: Schedule, day: int)
    requires
        schedule.wf(),
        schedule.recurrence == Recurrence::Daily,
        is_business_day(day),
        moment::valid_date(day),
        moment::valid_date(next_business(day)),
        moment::valid_instant(schedule.slot_on(next_business(day))),
    ensures
        schedule.next_slot(schedule.slot_on(day)) == Some(schedule.slot_on(next_business(day))),
        schedule.period(previous_business(day), schedule.slot_on(next_business(day))) == Some(
            (day, day),
        ),
{
    let next = next_business(day);
    law_slot_falls_on_its_own_date(schedule, next);
    lemma_fundamental_div_mod_converse(
        schedule.slot_on(day) - schedule.base(),
        DAY_TICKS as int,
        day,
        0,
    );
    assert(schedule.first_day(day + 1) == Some(next));
    law_business_day_steps_undo_each_other(day);
    assert(schedule.calendar.day_of(schedule.slot_on(next)) == next);
}

/// A covered span is followed by a span that starts on the next business
/// day: no date is skipped and none is covered twice.
pub proof fn law_periods_are_contiguous(
    schedule: Schedule,
    through_target: int,
    slot: int,
    next: int,
)
    ensures
        schedule.period(through_target, slot) matches Some(first) ==> {
            &&& first.0 == next_business(through_target)
            &&& first.1 == previous_business(schedule.calendar.day_of(slot))
            &&& (schedule.period(first.1, next) matches Some(second) ==> second.0 == next_business(
                first.1,
            ))
        },
{
}

// ---------------------------------------------------------------- descriptor
/// `+HH:MM` or `-HH:MM`.
pub open spec fn offset_text(offset_minutes: int) -> Seq<char> {
    let size = if offset_minutes < 0 {
        -offset_minutes
    } else {
        offset_minutes
    };
    seq![
        if offset_minutes < 0 {
            '-'
        } else {
            '+'
        },
    ] + moment::two_digits((size / 60) as nat) + seq![':'] + moment::two_digits(
        (size % 60) as nat,
    )
}

/// `<recurrence>@HH:MM<offset>`.
pub open spec fn schedule_text(schedule: Schedule) -> Seq<char> {
    recurrence_text(schedule.recurrence) + "@"@ + moment::clock_text(schedule.at) + offset_text(
        schedule.calendar.offset_minutes as int,
    )
}

impl Schedule {
    /// Canonical description, for display: `daily@07:00-03:00`.
    pub fn descriptor(&self) -> (out: String)
        requires
            self.wf(),
        ensures
            out@ == schedule_text(*self),
    {
        let mut out = self.recurrence.to_text();
        out.append("@");
        out.append(moment::write_clock(self.at).as_str());
        let offset: i32 = self.calendar.offset_minutes;
        let size: u32 = if offset < 0 {
            out.push('-');
            (-offset) as u32
        } else {
            out.push('+');
            offset as u32
        };
        moment::push_two_digits(&mut out, size / 60);
        out.push(':');
        moment::push_two_digits(&mut out, size % 60);
        proof {
            assert(out@ =~= schedule_text(*self));
        }
        out
    }
}

/// A slot is the schedule's time of day on its date, by the local clock.
pub proof fn law_a_slot_is_the_local_time_of_day(schedule: Schedule, day: int)
    ensures
        schedule.slot_on(day) + schedule.calendar.offset_minutes * 60 * 2_000_000_000 == (day
            * 86_400 + schedule.at.hour * 3_600 + schedule.at.minute * 60) * 2_000_000_000,
{
}

/// A daily schedule fires on every business day, a weekly one on the
/// business days of its weekday: once a week from Monday to Friday, and never
/// where it asks for the weekend.
pub proof fn law_a_schedule_fires_on_its_days(schedule: Schedule, day: int)
    ensures
        schedule.recurrence is Daily ==> (schedule.fires_on(day) <==> (day - 2) % 7 != 0 && (day - 3)
            % 7 != 0),
        schedule.recurrence matches Recurrence::Weekly { on } ==> {
            &&& on == Weekday::Mon ==> (schedule.fires_on(day) <==> (day - 4) % 7 == 0)
            &&& on == Weekday::Tue ==> (schedule.fires_on(day) <==> (day - 5) % 7 == 0)
            &&& on == Weekday::Wed ==> (schedule.fires_on(day) <==> (day - 6) % 7 == 0)
            &&& on == Weekday::Thu ==> (schedule.fires_on(day) <==> day % 7 == 0)
            &&& on == Weekday::Fri ==> (schedule.fires_on(day) <==> (day - 1) % 7 == 0)
            &&& on == Weekday::Sat || on == Weekday::Sun ==> !schedule.fires_on(day)
        },
{
}

/// A run covers exactly the business days after those already covered and
/// before the date of its slot; where it covers nothing, there are none
/// within the calendar.
pub proof fn law_a_run_covers_what_is_left_before_its_date(
    schedule: Schedule,
    through_target: int,
    slot: int,
    day: int,
)
    requires
        is_business_day(day),
    ensures
        schedule.period(through_target, slot) matches Some(span) ==> {
            &&& (through_target < day < schedule.calendar.day_of(slot) <==> span.0 <= day <= span.1)
            &&& is_business_day(span.0) && is_business_day(span.1) && span.0 <= span.1
        },
        schedule.period(through_target, slot) is None && moment::valid_date(day)
            && moment::valid_date(schedule.calendar.day_of(slot)) && moment::valid_date(
            through_target,
        ) ==> !(through_target < day < schedule.calendar.day_of(slot)),
{
    law_neighbouring_business_days(through_target);
    law_neighbouring_business_days(schedule.calendar.day_of(slot));
}

/// What is spelled is written.
pub(crate) proof fn lemma_spelled(raw: Seq<char>)
    ensures
        recurrence_spelled(raw) matches Some(recurrence) ==> raw == recurrence_text(recurrence),
{
    if let Some(Recurrence::Weekly { on }) = recurrence_spelled(raw) {
        lemma_weekly_spelled(on);
    }
}

} // verus!
