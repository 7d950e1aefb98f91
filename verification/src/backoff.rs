//! Exponential backoff with a ceiling.
use vstd::arithmetic::power2::pow2;
use vstd::prelude::*;

verus! {

/// The ceiling of every backoff: one hour.
pub const BACKOFF_CAP_SECS: u32 = 3600;

/// The smaller of two numbers.
pub open spec fn smaller(a: nat, b: nat) -> nat {
    if a <= b {
        a
    } else {
        b
    }
}

/// `base` doubled `times` times, never above `cap`.
pub open spec fn doubled(base: nat, times: nat, cap: nat) -> nat
    decreases times,
{
    if times == 0 {
        smaller(base, cap)
    } else {
        smaller(2 * doubled(base, (times - 1) as nat, cap), cap)
    }
}

/// A capped doubling is the power of two, cut off at the cap.
pub proof fn law_doubling_is_a_capped_power_of_two(base: nat, times: nat, cap: nat)
    ensures
        doubled(base, times, cap) == smaller(base * pow2(times), cap),
    decreases times,
{
    if times == 0 {
        vstd::arithmetic::power2::lemma2_to64();
        assert(base * pow2(0) == base) by (nonlinear_arith)
            requires
                pow2(0) == 1,
        ;
    } else {
        law_doubling_is_a_capped_power_of_two(base, (times - 1) as nat, cap);
        vstd::arithmetic::power2::lemma_pow2_unfold(times);
        let half = pow2((times - 1) as nat);
        assert(base * pow2(times) == 2 * (base * half)) by (nonlinear_arith)
            requires
                pow2(times) == 2 * half,
        ;
    }
}

/// More doublings never wait less, and no wait exceeds the cap.
pub proof fn law_backoff_grows_up_to_the_cap(base: nat, fewer: nat, more: nat, cap: nat)
    requires
        fewer <= more,
    ensures
        doubled(base, fewer, cap) <= doubled(base, more, cap),
        doubled(base, more, cap) <= cap,
    decreases more,
{
    if fewer < more {
        law_backoff_grows_up_to_the_cap(base, fewer, (more - 1) as nat, cap);
    }
}

proof fn lemma_settled(base: nat, at: nat, times: nat, cap: nat)
    requires
        at <= times,
        doubled(base, at, cap) == 0 || doubled(base, at, cap) == cap,
    ensures
        doubled(base, times, cap) == doubled(base, at, cap),
    decreases times,
{
    if at < times {
        lemma_settled(base, at, (times - 1) as nat, cap);
    }
}

/// `base` seconds doubled `times` times, capped at one hour.
pub fn backoff_secs(base: u32, times: u32) -> (secs: u32)
    ensures
        secs == doubled(base as nat, times as nat, BACKOFF_CAP_SECS as nat),
        secs <= BACKOFF_CAP_SECS,
{
    let mut secs: u32 = if base <= BACKOFF_CAP_SECS {
        base
    } else {
        BACKOFF_CAP_SECS
    };
    let mut done: u32 = 0;
    while done < times && 0 < secs && secs < BACKOFF_CAP_SECS
        invariant
            done <= times,
            secs <= BACKOFF_CAP_SECS,
            secs == doubled(base as nat, done as nat, BACKOFF_CAP_SECS as nat),
        decreases times - done,
    {
        secs = if 2 * secs <= BACKOFF_CAP_SECS {
            2 * secs
        } else {
            BACKOFF_CAP_SECS
        };
        done += 1;
    }
    proof {
        if done < times {
            lemma_settled(base as nat, done as nat, times as nat, BACKOFF_CAP_SECS as nat);
        }
    }
    secs
}

} // verus!
