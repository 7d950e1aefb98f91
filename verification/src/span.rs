//! Spans of time and the jitter that keeps periodic work from lining up.
use vstd::prelude::*;

verus! {

/// A span of time: whole seconds and the nanoseconds beyond.
#[derive(Clone, Copy, Debug, PartialEq, Eq, Structural)]
pub struct Span {
    pub secs: u64,
    pub nanos: u32,
}

impl Span {
    /// Whether the nanoseconds are less than a second.
    pub open spec fn wf(self) -> bool {
        self.nanos < 1_000_000_000
    }

    /// Whole milliseconds in the span.
    pub open spec fn millis(self) -> nat {
        (self.secs * 1000 + self.nanos as nat / 1_000_000) as nat
    }

    /// All of the span, in nanoseconds.
    pub open spec fn total_nanos(self) -> nat {
        (self.secs * 1_000_000_000 + self.nanos) as nat
    }

    pub fn from_secs(secs: u64) -> (span: Span)
        ensures
            span.secs == secs,
            span.nanos == 0,
            span.wf(),
    {
        Span { secs, nanos: 0 }
    }

    pub fn from_millis(millis: u64) -> (span: Span)
        ensures
            span.wf(),
            span.millis() == millis,
            span.total_nanos() == millis * 1_000_000,
    {
        Span { secs: millis / 1000, nanos: (millis % 1000) as u32 * 1_000_000 }
    }

    pub fn from_micros(micros: u64) -> (span: Span)
        ensures
            span.wf(),
            span.total_nanos() == micros * 1000,
    {
        Span { secs: micros / 1_000_000, nanos: (micros % 1_000_000) as u32 * 1000 }
    }

    pub fn as_secs(&self) -> (secs: u64)
        ensures
            secs == self.secs,
    {
        self.secs
    }

    /// Whole milliseconds, up to what 64 bits hold.
    pub fn as_millis(&self) -> (millis: u64)
        requires
            self.wf(),
        ensures
            millis == (if self.millis() <= u64::MAX {
                self.millis()
            } else {
                u64::MAX as nat
            }),
    {
        let millis: u128 = self.secs as u128 * 1000 + (self.nanos / 1_000_000) as u128;
        if millis <= u64::MAX as u128 {
            millis as u64
        } else {
            u64::MAX
        }
    }

    /// Half the span, to the nanosecond.
    pub fn half(&self) -> (span: Span)
        requires
            self.wf(),
        ensures
            span.wf(),
            span.total_nanos() == self.total_nanos() / 2,
    {
        let rest: u32 = if self.secs % 2 == 1 {
            1_000_000_000
        } else {
            0
        };
        Span { secs: self.secs / 2, nanos: (self.nanos + rest) / 2 }
    }
}

// ---------------------------------------------------------------- jitter
/// `millis` scaled to `percent`, within 64 bits.
pub open spec fn scaled_millis(millis: nat, percent: nat) -> nat {
    let held = if millis <= u64::MAX {
        millis
    } else {
        u64::MAX as nat
    };
    let product = if held * percent <= u64::MAX {
        held * percent
    } else {
        u64::MAX as nat
    };
    product / 100
}

/// Nine tenths of a span, in nanoseconds rounded up.
pub open spec fn least_nanos(base: Span) -> nat {
    (base.total_nanos() * 90 + 99) / 100
}

/// Whether `out` is within ten percent of `base`, to the nanosecond.
pub open spec fn within_ten_percent(base: Span, out: Span) -> bool {
    90 * base.total_nanos() <= 100 * out.total_nanos() <= 110 * base.total_nanos()
}

/// Whether `out` is `base` scaled to `percent` in whole milliseconds. A span
/// that would vanish is left as it is, and where the milliseconds dropped
/// would take it below nine tenths it stays there.
pub open spec fn is_scaled(base: Span, percent: nat, out: Span) -> bool {
    let scaled = scaled_millis(base.millis(), percent);
    if scaled == 0 {
        out == base
    } else {
        out.wf() && out.total_nanos() == if scaled * 1_000_000 < least_nanos(base) {
            least_nanos(base)
        } else {
            scaled * 1_000_000
        }
    }
}

/// Scales a period to between 90 and 110 percent, as the nanoseconds of a
/// clock decide.
pub fn jittered_by(base: Span, nanos: u32) -> (out: Span)
    requires
        base.wf(),
    ensures
        is_scaled(base, (90 + nanos as nat % 21) as nat, out),
        within_ten_percent(base, out),
        out.wf(),
{
    let percent: u64 = 90 + (nanos % 21) as u64;
    let millis: u64 = base.as_millis();
    let product: u64 = match millis.checked_mul(percent) {
        Some(p) => p,
        None => u64::MAX,
    };
    let scaled: u64 = product / 100;
    let total: u128 = base.secs as u128 * 1_000_000_000 + base.nanos as u128;
    let least: u128 = (total * 90 + 99) / 100;
    let out: Span = if scaled == 0 {
        base
    } else if (scaled as u128) * 1_000_000 < least {
        Span { secs: (least / 1_000_000_000) as u64, nanos: (least % 1_000_000_000) as u32 }
    } else {
        Span::from_millis(scaled)
    };
    proof {
        law_jitter_stays_within_ten_percent(base, percent as nat, out);
    }
    out
}

/// `std::time::SystemTime::now`, as the nanoseconds within its second since
/// the epoch; `None` where the clock stands before the epoch.
#[verifier::external_body]
fn clock_nanos() -> (nanos: Option<u32>)
    ensures
        nanos matches Some(n) ==> n < 1_000_000_000,
{
    let since = std::time::SystemTime::now().duration_since(std::time::UNIX_EPOCH);
    since.ok().map(|d| d.subsec_nanos())
}

/// Scales a period into 90 to 110 percent using the clock's sub-second
/// noise, so that periodic jobs do not line up.
pub fn jittered(base: Span) -> (out: Span)
    requires
        base.wf(),
    ensures
        exists|percent: nat| 90 <= percent <= 110 && #[trigger] is_scaled(base, percent, out),
        within_ten_percent(base, out),
        out.wf(),
{
    let nanos: u32 = match clock_nanos() {
        Some(n) => n,
        None => 0,
    };
    jittered_by(base, nanos)
}

/// A jittered period stays within ten percent of its base, however short or
/// long the base is.
pub proof fn law_jitter_stays_within_ten_percent(base: Span, percent: nat, out: Span)
    requires
        base.wf(),
        90 <= percent <= 110,
        is_scaled(base, percent, out),
    ensures
        within_ten_percent(base, out),
{
    let m = base.millis();
    let held = if m <= u64::MAX {
        m
    } else {
        u64::MAX as nat
    };
    assert(held * percent <= held * 110) by (nonlinear_arith)
        requires
            90 <= percent <= 110,
    ;
    assert(m * 1_000_000 <= base.total_nanos());
}

/// Jitter never turns a period into nothing.
pub proof fn law_jitter_never_zeroes_a_period(base: Span, percent: nat, out: Span)
    requires
        base.wf(),
        base.total_nanos() > 0,
        is_scaled(base, percent, out),
    ensures
        out.total_nanos() > 0,
{
}

/// A period is scaled by its percentage, in whole milliseconds, as long as
/// the product fits: what comes to nothing leaves the period as it is, and
/// what comes to less than nine tenths of it is raised to just that.
pub proof fn law_jitter_scales_by_its_percentage(base: Span, percent: nat, out: Span)
    requires
        base.wf(),
        is_scaled(base, percent, out),
        (base.secs * 1_000 + base.nanos as int / 1_000_000) * percent <= u64::MAX,
        percent > 0,
    ensures
        ({
            let whole = base.secs * 1_000_000_000 + base.nanos;
            let scaled = (base.secs * 1_000 + base.nanos as int / 1_000_000) * percent / 100;
            let came = out.secs * 1_000_000_000 + out.nanos;
            &&& scaled == 0 ==> out == base
            &&& scaled > 0 && scaled * 100_000_000 >= whole * 90 ==> came == scaled * 1_000_000
            &&& scaled > 0 && scaled * 100_000_000 < whole * 90 ==> whole * 90 <= came * 100
                < whole * 90 + 100
        }),
{
    let m = base.millis();
    assert(m <= m * percent) by (nonlinear_arith)
        requires
            percent > 0,
    ;
}

/// A period's milliseconds are a thousand for each second and one for each
/// million nanoseconds.
pub proof fn law_a_period_in_milliseconds(span: Span)
    requires
        span.wf(),
    ensures
        span.millis() == span.secs * 1_000 + span.nanos / 1_000_000,
        span.total_nanos() == span.secs * 1_000_000_000 + span.nanos,
        span.nanos < 1_000_000_000,
{
}

} // verus!
