//! Instants, civil dates and clock times, and the text forms they persist in.
//!
//! An instant is a count of ticks since 1970-01-01T00:00:00Z, two billion to
//! the second: one for each nanosecond of the second, and as many again for
//! the nanoseconds of the leap second that may follow the last second of a
//! minute. So instants sort as they do in `chrono`, leap seconds included. A
//! civil date is a count of days since 1970-01-01. The text forms come from
//! `chrono`; that of an instant holds whole milliseconds.
use crate::text;
use vstd::arithmetic::{div_mod, mul};
use vstd::prelude::*;

verus! {

/// Ticks in one day, in one minute, in one second and in one millisecond.
pub const DAY_TICKS: i128 = 172_800_000_000_000;

pub const MINUTE_TICKS: i128 = 120_000_000_000;

pub const SECOND_TICKS: i128 = 2_000_000_000;

pub const MILLI_TICKS: i128 = 1_000_000;

/// Nanoseconds in one second: the ticks from there on are a leap second's.
pub const SECOND_NANOS: i128 = 1_000_000_000;

/// The first and the last day that a civil date can name.
pub const FIRST_DAY: i32 = -96_465_292;

pub const LAST_DAY: i32 = 95_026_236;

/// The first and the last instant of those days.
pub const FIRST_INSTANT: i128 = -16_669_202_457_600_000_000_000;

pub const LAST_INSTANT: i128 = 16_420_533_753_598_999_999_999;

/// The instants of the years 0000 to 9999, which RFC 3339 can write.
pub const FIRST_RFC3339: i128 = -124_334_438_400_000_000_000;

pub const LAST_RFC3339: i128 = 506_804_601_599_999_999_999;

/// Whether the instant falls in a leap second.
pub open spec fn in_leap(ticks: int) -> bool {
    ticks % (SECOND_TICKS as int) >= SECOND_NANOS
}

/// Whether `ticks` is an instant of the supported calendar. A leap second
/// follows the last second of a minute.
pub open spec fn valid_instant(ticks: int) -> bool {
    FIRST_INSTANT <= ticks <= LAST_INSTANT && (in_leap(ticks) ==> (ticks / (SECOND_TICKS as int))
        % 60 == 59)
}

/// Whether `day` is a date of the supported calendar.
pub open spec fn valid_date(day: int) -> bool {
    FIRST_DAY <= day <= LAST_DAY
}

/// The start of the millisecond that the instant falls in.
pub open spec fn whole_millis(ticks: int) -> int {
    ticks - ticks % (MILLI_TICKS as int)
}

/// The start of the second before the one that the instant falls in.
pub open spec fn second_before(ticks: int) -> int {
    ticks - ticks % (SECOND_TICKS as int) - SECOND_TICKS
}

/// Whether the instant falls in the years 0000 to 9999.
pub open spec fn rfc3339_year(ticks: int) -> bool {
    FIRST_RFC3339 <= ticks <= LAST_RFC3339
}

/// Whether the canonical text names the instant exactly: in the years 0000 to
/// 9999, and on a whole millisecond.
pub open spec fn exact_text(ticks: int) -> bool {
    rfc3339_year(ticks) && whole_millis(ticks) == ticks
}

/// The instant as a store keeps it: to the millisecond. What is no instant
/// is never stored, and stays as it is.
pub open spec fn stored_instant(ticks: int) -> int {
    if valid_instant(ticks) {
        whole_millis(ticks)
    } else {
        ticks
    }
}

/// `secs` seconds after `now`, within the calendar. What leaves a leap second
/// counts from the second before it.
pub open spec fn secs_after(now: int, secs: nat) -> int {
    let from = if in_leap(now) {
        now - SECOND_NANOS
    } else {
        now
    };
    if secs == 0 {
        now
    } else if from + secs * SECOND_TICKS <= LAST_INSTANT {
        from + secs * SECOND_TICKS
    } else {
        LAST_INSTANT as int
    }
}

/// `days` days before `now`. What leaves a leap second backwards counts from
/// the second after it.
pub open spec fn days_before(now: int, days: nat) -> int {
    let from = if in_leap(now) {
        now - SECOND_NANOS + SECOND_TICKS
    } else {
        now
    };
    if days == 0 {
        now
    } else {
        from - days * DAY_TICKS
    }
}

/// The whole seconds of an instant and the ticks after them.
fn split_seconds(ticks: i128) -> (parts: (i128, i128))
    requires
        FIRST_INSTANT <= ticks <= LAST_INSTANT,
    ensures
        parts.0 == ticks as int / (SECOND_TICKS as int),
        parts.1 == ticks as int % (SECOND_TICKS as int),
        -10_000_000_000_000 <= parts.0 <= 10_000_000_000_000,
        0 <= parts.1 < SECOND_TICKS,
{
    let shifted: i128 = ticks + 10_000_000_000_000 * SECOND_TICKS;
    (shifted / SECOND_TICKS - 10_000_000_000_000, shifted % SECOND_TICKS)
}

/// The instant `nanos` nanoseconds after the second `secs` since the epoch;
/// more nanoseconds than a second has are those of a leap second.
pub fn instant(secs: i64, nanos: u32) -> (ticks: i128)
    ensures
        ticks == secs * SECOND_TICKS + nanos,
{
    secs as i128 * SECOND_TICKS + nanos as i128
}

/// Whether `ticks` is an instant of the supported calendar.
pub fn is_instant(ticks: i128) -> (yes: bool)
    ensures
        yes == valid_instant(ticks as int),
{
    if ticks < FIRST_INSTANT || LAST_INSTANT < ticks {
        return false;
    }
    let (secs, rest) = split_seconds(ticks);
    rest < SECOND_NANOS || (secs + 60_000_000_000_000) % 60 == 59
}

/// The start of the millisecond that the instant falls in.
pub fn truncated_to_millis(ticks: i128) -> (whole: i128)
    requires
        valid_instant(ticks as int),
    ensures
        whole == whole_millis(ticks as int),
        valid_instant(whole as int),
        whole <= ticks,
{
    let shift: i128 = 20_000_000_000_000_000 * MILLI_TICKS;
    let rest: i128 = (ticks + shift) % MILLI_TICKS;
    proof {
        lemma_whole_millis(ticks as int);
    }
    ticks - rest
}

/// The start of the second before the one that the instant falls in.
pub(crate) fn start_of_second_before(ticks: i128) -> (start: i128)
    requires
        valid_instant(ticks as int),
    ensures
        start == second_before(ticks as int),
{
    let (_, rest) = split_seconds(ticks);
    ticks - rest - SECOND_TICKS
}

/// Cutting off what goes beyond a small unit leaves a number in its large
/// unit, where the large one is a multiple of the small one.
pub(crate) proof fn lemma_cut(ticks: int, small: int, times: int)
    requires
        0 < small,
        0 < times,
    ensures
        (ticks - ticks % small) / (small * times) == ticks / (small * times),
        (ticks - ticks % small) % (small * times) == ticks % (small * times) - ticks % small,
        (ticks - ticks % small) % small == 0,
        ticks - ticks % small == ticks / small * small,
{
    let large = small * times;
    let rest = ticks % large;
    assert(0 < large) by (nonlinear_arith)
        requires
            0 < small,
            0 < times,
            large == small * times,
    ;
    div_mod::lemma_fundamental_div_mod(ticks, large);
    div_mod::lemma_fundamental_div_mod(ticks, small);
    div_mod::lemma_mod_mod(ticks, small, times);
    div_mod::lemma_fundamental_div_mod(rest, small);
    div_mod::lemma_mod_bound(rest, small);
    div_mod::lemma_mod_bound(ticks, large);
    assert(0 <= rest / small * small) by (nonlinear_arith)
        requires
            0 <= rest,
            0 < small,
    ;
    mul::lemma_mul_is_commutative(small, ticks / small);
    mul::lemma_mul_is_commutative(small, rest / small);
    mul::lemma_mul_is_commutative(large, ticks / large);
    div_mod::lemma_mod_multiples_basic(ticks / small, small);
    div_mod::lemma_fundamental_div_mod_converse(
        ticks - ticks % small,
        large,
        ticks / large,
        rest - rest % small,
    );
}

/// Cutting to the millisecond keeps an instant in its second, and twice is
/// once.
pub(crate) proof fn lemma_whole_millis(ticks: int)
    ensures
        whole_millis(ticks) <= ticks < whole_millis(ticks) + MILLI_TICKS,
        whole_millis(ticks) / (SECOND_TICKS as int) == ticks / (SECOND_TICKS as int),
        in_leap(whole_millis(ticks)) == in_leap(ticks),
        whole_millis(whole_millis(ticks)) == whole_millis(ticks),
        valid_instant(ticks) ==> valid_instant(whole_millis(ticks)),
{
    let milli = MILLI_TICKS as int;
    lemma_cut(ticks, milli, 2000);
    let rest = ticks % (SECOND_TICKS as int);
    let cut = rest - ticks % milli;
    assert(whole_millis(ticks) % (SECOND_TICKS as int) == cut);
    lemma_cut(rest, milli, 2000);
    div_mod::lemma_mod_mod(ticks, milli, 2000);
    assert(cut == rest / milli * milli);
}

/// What a store keeps of an instant in the years 0000 to 9999 is what its
/// canonical text names.
pub proof fn law_stored_instants_have_an_exact_text(ticks: int)
    requires
        valid_instant(ticks),
        rfc3339_year(ticks),
    ensures
        valid_instant(stored_instant(ticks)),
        exact_text(stored_instant(ticks)),
{
    lemma_whole_millis(ticks);
    lemma_cut(ticks, MILLI_TICKS as int, 2000);
}

/// What is stored as later is later.
pub(crate) proof fn lemma_stored_later(now: int, at: int)
    requires
        stored_instant(now) < stored_instant(at),
    ensures
        now < at,
{
    lemma_whole_millis(now);
    lemma_whole_millis(at);
    if valid_instant(now) && at <= now {
        let m = MILLI_TICKS as int;
        assert(whole_millis(now) == now / m * m);
        assert(whole_millis(at) == at / m * m);
        if !valid_instant(at) {
            lemma_same_millisecond(now, at);
        }
        assert(false);
    }
}

/// What is stored as no later is reached.
pub(crate) proof fn lemma_stored_reached(at: int, now: int)
    ensures
        whole_millis(at) <= whole_millis(now) <==> whole_millis(at) <= now,
{
    let milli = MILLI_TICKS as int;
    let (a, b) = (at / milli, now / milli);
    lemma_cut(at, milli, 2000);
    lemma_cut(now, milli, 2000);
    lemma_whole_millis(now);
    assert(whole_millis(at) == a * milli);
    assert(whole_millis(now) == b * milli);
}

/// What lies between an instant and the start of its millisecond lies in the
/// same second, and in the same half of it.
proof fn lemma_same_millisecond(now: int, at: int)
    requires
        whole_millis(now) <= at <= now,
    ensures
        at / (SECOND_TICKS as int) == now / (SECOND_TICKS as int),
        in_leap(at) == in_leap(now),
{
    let second = now / (SECOND_TICKS as int);
    let rest = now % (SECOND_TICKS as int);
    lemma_cut(now, MILLI_TICKS as int, 2000);
    lemma_whole_millis(now);
    div_mod::lemma_fundamental_div_mod(now, SECOND_TICKS as int);
    div_mod::lemma_fundamental_div_mod(whole_millis(now), SECOND_TICKS as int);
    div_mod::lemma_fundamental_div_mod_converse(
        at,
        SECOND_TICKS as int,
        second,
        at - second * SECOND_TICKS,
    );
}

/// The instant as a store keeps it.
pub(crate) fn kept(ticks: i128) -> (stored: i128)
    ensures
        stored == stored_instant(ticks as int),
{
    if is_instant(ticks) {
        truncated_to_millis(ticks)
    } else {
        ticks
    }
}

/// `secs` seconds after `now`, within the calendar.
pub(crate) fn after_secs(now: i128, secs: u32) -> (then: i128)
    requires
        valid_instant(now as int),
    ensures
        then == secs_after(now as int, secs as nat),
        valid_instant(then as int),
        now <= then,
{
    if secs == 0 {
        return now;
    }
    let (whole, rest) = split_seconds(now);
    let from: i128 = if rest >= SECOND_NANOS {
        now - SECOND_NANOS
    } else {
        now
    };
    let then: i128 = from + secs as i128 * SECOND_TICKS;
    proof {
        let plain = if rest >= SECOND_NANOS {
            rest - SECOND_NANOS
        } else {
            rest as int
        };
        assert(then == (whole + secs) * SECOND_TICKS + plain);
        assert(then as int % (SECOND_TICKS as int) == plain);
        assert(LAST_INSTANT as int % (SECOND_TICKS as int) < SECOND_NANOS);
    }
    if then <= LAST_INSTANT {
        then
    } else {
        LAST_INSTANT
    }
}

/// `days` days before `now`; `None` where the calendar does not reach back
/// that far.
pub(crate) fn before_days(now: i128, days: u32) -> (then: Option<i128>)
    requires
        valid_instant(now as int),
    ensures
        then is Some <==> valid_instant(days_before(now as int, days as nat)),
        then matches Some(t) ==> t == days_before(now as int, days as nat),
{
    if days == 0 {
        return Some(now);
    }
    let (_, rest) = split_seconds(now);
    let from: i128 = if rest >= SECOND_NANOS {
        now - SECOND_NANOS + SECOND_TICKS
    } else {
        now
    };
    let then: i128 = from - days as i128 * DAY_TICKS;
    if is_instant(then) {
        Some(then)
    } else {
        None
    }
}

// ---------------------------------------------------------------- instants
/// The canonical text of an instant: RFC 3339, milliseconds, `Z`.
pub uninterp spec fn instant_text(ticks: int) -> Seq<char>;

/// The instant that an RFC 3339 text names.
pub uninterp spec fn instant_read(text: Seq<char>) -> Option<int>;

/// `chrono::DateTime::parse_from_rfc3339`: the seconds since the epoch and
/// the nanoseconds after them that `text` names, if it is RFC 3339. Only a
/// leap second, at the end of a minute, has more nanoseconds than a second.
/// Years have four digits and an offset is less than a day, so none lies more
/// than a day outside the years 0000 to 9999.
#[verifier::external_body]
fn parse_rfc3339(text: &str) -> (parts: Option<(i64, u32)>)
    ensures
        parts is Some <==> instant_read(text@) is Some,
        parts matches Some(p) ==> {
            &&& instant_read(text@) == Some(p.0 * SECOND_TICKS + p.1)
            &&& p.1 < 1_000_000_000 || (p.1 < 2_000_000_000 && p.0 as int % 60 == 59)
            &&& FIRST_RFC3339 - DAY_TICKS <= p.0 * SECOND_TICKS + p.1 <= LAST_RFC3339 + DAY_TICKS
        },
{
    let parsed = chrono::DateTime::parse_from_rfc3339(text).ok()?;
    Some((parsed.timestamp(), parsed.timestamp_subsec_nanos()))
}

/// The instant that `text` names, if it is RFC 3339.
pub fn read_instant(text: &str) -> (ticks: Option<i128>)
    ensures
        ticks is Some <==> instant_read(text@) is Some,
        ticks matches Some(t) ==> instant_read(text@) == Some(t as int) && valid_instant(t as int)
            && valid_instant(second_before(t as int)),
{
    match parse_rfc3339(text) {
        Some((secs, nanos)) => {
            let ticks: i128 = instant(secs, nanos);
            proof {
                assert(ticks as int / (SECOND_TICKS as int) == secs);
                assert(ticks as int % (SECOND_TICKS as int) == nanos);
                assert(second_before(ticks as int) == (secs - 1) * SECOND_TICKS);
                assert(second_before(ticks as int) % (SECOND_TICKS as int) == 0);
            }
            Some(ticks)
        },
        None => None,
    }
}

/// `chrono::DateTime::to_rfc3339_opts` with milliseconds and `Z`, of the
/// instant `secs` seconds and `nanos` nanoseconds after the epoch, which
/// `chrono::DateTime::from_timestamp` gives: digits below the millisecond are
/// dropped; in the years 0000 to 9999 the text reads back as the millisecond,
/// in a leap second too; and it never holds a `|`.
#[verifier::external_body]
fn write_rfc3339(secs: i64, nanos: u32) -> (out: String)
    requires
        nanos < 2_000_000_000,
        valid_instant(secs * SECOND_TICKS + nanos),
    ensures
        out@ == instant_text(secs * SECOND_TICKS + nanos),
        rfc3339_year(secs * SECOND_TICKS + nanos) ==> instant_read(out@) == Some(
            whole_millis(secs * SECOND_TICKS + nanos),
        ),
        !out@.contains('|'),
{
    let instant = chrono::DateTime::from_timestamp(secs, nanos).unwrap_or_default();
    instant.to_rfc3339_opts(chrono::SecondsFormat::Millis, true)
}

/// Canonical persisted timestamp form: RFC 3339, millisecond precision,
/// Z-suffixed UTC.
pub fn canonical_timestamp(ticks: i128) -> (out: String)
    requires
        valid_instant(ticks as int),
    ensures
        out@ == instant_text(ticks as int),
        rfc3339_year(ticks as int) ==> instant_read(out@) == Some(whole_millis(ticks as int)),
        !out@.contains('|'),
{
    let (secs, nanos) = split_seconds(ticks);
    assert(secs * SECOND_TICKS + nanos == ticks);
    write_rfc3339(secs as i64, nanos as u32)
}

// ---------------------------------------------------------------- dates
/// The ISO 8601 text of a civil date.
pub uninterp spec fn date_text(day: int) -> Seq<char>;

/// The civil date that an ISO 8601 text names.
pub uninterp spec fn date_read(text: Seq<char>) -> Option<int>;

/// `chrono::NaiveDate::from_str`: the date that `text` names as
/// `YYYY-MM-DD`.
#[verifier::external_body]
pub(crate) fn read_date(text: &str) -> (day: Option<i32>)
    ensures
        day is Some <==> date_read(text@) is Some,
        day matches Some(d) ==> date_read(text@) == Some(d as int) && valid_date(d as int),
{
    let date = text.parse::<chrono::NaiveDate>().ok()?;
    Some(date.to_epoch_days())
}

/// Civil dates persist as ISO 8601 `YYYY-MM-DD`.
///
/// `chrono::NaiveDate`'s `Display`: the text reads back as the same date,
/// and it never holds a `|`.
#[verifier::external_body]
pub(crate) fn canonical_date(day: i32) -> (out: String)
    requires
        valid_date(day as int),
    ensures
        out@ == date_text(day as int),
        date_read(out@) == Some(day as int),
        !out@.contains('|'),
{
    let date = chrono::NaiveDate::from_epoch_days(day).unwrap_or_default();
    date.to_string()
}

// ---------------------------------------------------------------- clock
/// A time of day, to the minute.
#[derive(Clone, Copy, Debug, PartialEq, Eq, Structural)]
pub struct ClockTime {
    pub hour: u32,
    pub minute: u32,
}

impl ClockTime {
    /// Whether the hour and the minute are within a day.
    pub open spec fn wf(self) -> bool {
        self.hour < 24 && self.minute < 60
    }

    /// The time `hour:minute`, if it is within a day.
    pub fn from_hm(hour: u32, minute: u32) -> (at: Option<ClockTime>)
        ensures
            at is Some <==> (hour < 24 && minute < 60),
            at matches Some(a) ==> a.hour == hour && a.minute == minute,
    {
        if hour < 24 && minute < 60 {
            Some(ClockTime { hour, minute })
        } else {
            None
        }
    }
}

/// Two decimal digits of `n`.
pub open spec fn two_digits(n: nat) -> Seq<char> {
    seq![text::digit_char(n / 10), text::digit_char(n % 10)]
}

/// `HH:MM`.
pub open spec fn clock_text(at: ClockTime) -> Seq<char> {
    two_digits(at.hour as nat) + seq![':'] + two_digits(at.minute as nat)
}

/// Writes `n` with two digits.
pub(crate) fn push_two_digits(out: &mut String, n: u32)
    requires
        n < 100,
    ensures
        final(out)@ == old(out)@ + two_digits(n as nat),
{
    let high: u8 = 48 + (n / 10) as u8;
    let low: u8 = 48 + (n % 10) as u8;
    out.push(high as char);
    out.push(low as char);
    proof {
        assert(old(out)@.push(high as char).push(low as char) =~= old(out)@ + two_digits(n as nat));
    }
}

/// Writes a time of day as `HH:MM`.
pub fn write_clock(at: ClockTime) -> (out: String)
    requires
        at.wf(),
    ensures
        out@ == clock_text(at),
{
    let mut out = String::new();
    push_two_digits(&mut out, at.hour);
    out.push(':');
    push_two_digits(&mut out, at.minute);
    proof {
        assert(out@ =~= clock_text(at));
    }
    out
}

/// The value of two decimal digits.
pub open spec fn pair_value(high: char, low: char) -> int {
    (high as u32 - 48) * 10 + (low as u32 - 48)
}

/// The time of day that `text` spells as exactly `HH:MM`.
pub open spec fn clock_spelled(text: Seq<char>) -> Option<ClockTime> {
    if text.len() == 5 && text[2] == ':' && text::is_digit(text[0]) && text::is_digit(text[1])
        && text::is_digit(text[3]) && text::is_digit(text[4]) && pair_value(text[0], text[1]) < 24
        && pair_value(text[3], text[4]) < 60 {
        Some(
            ClockTime {
                hour: pair_value(text[0], text[1]) as u32,
                minute: pair_value(text[3], text[4]) as u32,
            },
        )
    } else {
        None
    }
}

/// What `chrono` makes of a text read as `%H:%M`: hour and minute, or the
/// message of its error.
pub uninterp spec fn clock_read(text: Seq<char>) -> Result<(int, int), Seq<char>>;

/// `chrono::NaiveTime::parse_from_str` with `%H:%M`. What it accepts is
/// within a day, and `HH:MM` is accepted as that time.
#[verifier::external_body]
pub(crate) fn read_clock(text: &str) -> (parsed: Result<ClockTime, String>)
    ensures
        parsed is Ok <==> clock_read(text@) is Ok,
        parsed matches Ok(at) ==> at.wf() && (clock_read(text@) matches Ok(hm) && hm.0 == at.hour
            && hm.1 == at.minute),
        parsed matches Err(e) ==> (clock_read(text@) matches Err(m) && m == e@),
        clock_spelled(text@) is Some ==> parsed is Ok && parsed->Ok_0 == clock_spelled(text@)->0,
{
    let time = chrono::NaiveTime::parse_from_str(text, "%H:%M").map_err(|e| e.to_string())?;
    Ok(ClockTime { hour: chrono::Timelike::hour(&time), minute: chrono::Timelike::minute(&time) })
}

/// A store keeps an instant to the millisecond: the start of the one that it
/// falls in.
pub proof fn law_a_store_keeps_the_millisecond(ticks: int)
    requires
        valid_instant(ticks),
    ensures
        stored_instant(ticks) <= ticks < stored_instant(ticks) + 1_000_000,
        stored_instant(ticks) % 1_000_000 == 0,
        stored_instant(stored_instant(ticks)) == stored_instant(ticks),
{
    lemma_whole_millis(ticks);
    lemma_cut(ticks, MILLI_TICKS as int, 2000);
}

/// Some seconds later is so many whole seconds later, at the same place
/// within the second, and never past the end of the calendar. A leap second
/// that is left counts as the second it belongs to.
pub proof fn law_seconds_later(now: int, secs: nat)
    requires
        valid_instant(now),
    ensures
        ({
            let start = if secs > 0 && now % 2_000_000_000 >= 1_000_000_000 {
                now - 1_000_000_000
            } else {
                now
            };
            let end = start + secs * 2_000_000_000;
            &&& end <= LAST_INSTANT ==> secs_after(now, secs) == end
            &&& end > LAST_INSTANT ==> secs_after(now, secs) == LAST_INSTANT
        }),
        now <= secs_after(now, secs),
{
    div_mod::lemma_fundamental_div_mod(now, SECOND_TICKS as int);
}

/// Some days earlier is so many days of 86 400 seconds earlier. A leap second
/// that is left counts as the second that follows it.
pub proof fn law_days_earlier(now: int, days: nat)
    ensures
        ({
            let start = if days > 0 && now % 2_000_000_000 >= 1_000_000_000 {
                now + 1_000_000_000
            } else {
                now
            };
            days_before(now, days) == start - days * 86_400 * 2_000_000_000
        }),
{
    assert(days * 86_400 * 2_000_000_000 == days * DAY_TICKS) by (nonlinear_arith)
        requires
            DAY_TICKS == 86_400 * 2_000_000_000,
    ;
}

/// The second before is the whole second that ends where the second of the
/// instant begins.
pub proof fn law_the_second_before(ticks: int)
    ensures
        second_before(ticks) % 2_000_000_000 == 0,
        second_before(ticks) + 2_000_000_000 <= ticks < second_before(ticks) + 4_000_000_000,
{
    div_mod::lemma_fundamental_div_mod(ticks, SECOND_TICKS as int);
    div_mod::lemma_mod_multiples_basic(
        ticks / (SECOND_TICKS as int) - 1,
        SECOND_TICKS as int,
    );
}

} // verus!
