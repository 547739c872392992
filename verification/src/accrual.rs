//! Accrual Calculator: how much of a stream's deposit is unlocked at a given
//! time, together with the laws that hold of it (monotonicity, bounds, cliff
//! gating).

use crate::stream::Stream;
use crate::stream::StreamStatus;
use vstd::arithmetic::mul::lemma_mul_inequality;
use vstd::arithmetic::mul::lemma_mul_is_commutative;
use vstd::arithmetic::mul::lemma_mul_nonnegative;
use vstd::prelude::*;

verus! {

/// The portion of `s.deposit_amount` unlocked at time `now`: zero before the
/// cliff; otherwise the elapsed streaming time (clamped to the window) times
/// the rate, capped at the deposit.
pub open spec fn accrued_at(s: Stream, now: u64) -> int {
    if now < s.cliff_time {
        0
    } else {
        let capped = if now < s.end_time {
            now as int
        } else {
            s.end_time as int
        };
        let elapsed = if capped >= s.start_time {
            capped - s.start_time
        } else {
            0
        };
        let raw = elapsed * s.rate_per_second;
        if raw < s.deposit_amount {
            raw
        } else {
            s.deposit_amount as int
        }
    }
}

/// Executable accrual computation: a pure function of the stored record and
/// the ledger-supplied current time.
pub fn accrued_amount(s: &Stream, now: u64) -> (r: i128)
    requires
        s.wf(),
    ensures
        r == accrued_at(*s, now),
        0 <= r <= s.deposit_amount,
{
    if now < s.cliff_time {
        return 0;
    }
    let capped: u64 = if now < s.end_time {
        now
    } else {
        s.end_time
    };
    let elapsed: u64 = capped - s.start_time;
    let elapsed_i: i128 = elapsed as i128;
    proof {
        lemma_mul_nonnegative(elapsed_i as int, s.rate_per_second as int);
        lemma_mul_inequality(
            elapsed_i as int,
            (s.end_time - s.start_time) as int,
            s.rate_per_second as int,
        );
        lemma_mul_is_commutative((s.end_time - s.start_time) as int, s.rate_per_second as int);
    }
    let raw: i128 = elapsed_i * s.rate_per_second;
    if raw < s.deposit_amount {
        raw
    } else {
        s.deposit_amount
    }
}

/// The accrued amount is never negative and never exceeds the deposit.
pub proof fn lemma_accrued_bounds(s: Stream, now: u64)
    requires
        s.wf(),
    ensures
        0 <= accrued_at(s, now) <= s.deposit_amount,
{
    if now >= s.cliff_time {
        let capped = if now < s.end_time {
            now as int
        } else {
            s.end_time as int
        };
        let elapsed = if capped >= s.start_time {
            capped - s.start_time
        } else {
            0
        };
        lemma_mul_nonnegative(elapsed, s.rate_per_second as int);
    }
}

/// Accrual is non-decreasing in time: for one stream, a later reading is
/// never smaller.
pub proof fn lemma_accrued_monotonic(s: Stream, now1: u64, now2: u64)
    requires
        s.wf(),
        now1 <= now2,
    ensures
        accrued_at(s, now1) <= accrued_at(s, now2),
{
    lemma_accrued_bounds(s, now1);
    lemma_accrued_bounds(s, now2);
    if now1 >= s.cliff_time {
        let capped1 = if now1 < s.end_time {
            now1 as int
        } else {
            s.end_time as int
        };
        let capped2 = if now2 < s.end_time {
            now2 as int
        } else {
            s.end_time as int
        };
        let elapsed1 = if capped1 >= s.start_time {
            capped1 - s.start_time
        } else {
            0
        };
        let elapsed2 = if capped2 >= s.start_time {
            capped2 - s.start_time
        } else {
            0
        };
        lemma_mul_inequality(elapsed1, elapsed2, s.rate_per_second as int);
    }
}

/// Cliff gating: nothing unlocks before the cliff, whatever the start time.
pub proof fn lemma_accrued_zero_before_cliff(s: Stream, now: u64)
    requires
        now < s.cliff_time,
    ensures
        accrued_at(s, now) == 0,
{
}

/// Two records follow the same time-based accrual formula at every time. The
/// formula reads only the deposit, the rate and the window, so neither the
/// status nor the withdrawn amount plays a part: in particular, pausing does
/// not freeze accrual. What a Cancelled record leaves claimable is a separate
/// matter: see [`claimable_at`].
pub open spec fn same_accrual_schedule(s1: Stream, s2: Stream) -> bool {
    forall|t: u64| accrued_at(s1, t) == accrued_at(s2, t)
}

/// What the recipient can claim of the deposit at time `now`: the time-based
/// accrual while the stream runs, frozen at its cancellation-time value once
/// the record is Cancelled. Time elapsing after a cancellation unlocks
/// nothing more.
pub open spec fn claimable_at(s: Stream, now: u64) -> int {
    if s.status is Cancelled {
        s.settled_accrued as int
    } else {
        accrued_at(s, now)
    }
}

/// Executable claimable-accrual computation: the time-based formula, or the
/// frozen amount once the stream is cancelled.
pub fn claimable_amount(s: &Stream, now: u64) -> (r: i128)
    requires
        s.wf(),
    ensures
        r == claimable_at(*s, now),
        0 <= r <= s.deposit_amount,
{
    if matches!(s.status, StreamStatus::Cancelled) {
        s.settled_accrued
    } else {
        accrued_amount(s, now)
    }
}

/// The unstreamed remainder refunded to the sender when a stream is
/// cancelled at time `now`.
pub open spec fn cancel_refund(s: Stream, now: u64) -> int {
    s.deposit_amount - accrued_at(s, now)
}

/// What a successful withdrawal at time `now` pays the recipient: everything
/// claimable so far that was not withdrawn yet.
pub open spec fn withdraw_payment(s: Stream, now: u64) -> int {
    claimable_at(s, now) - s.withdrawn_amount
}

} // verus!
