//! Bounded exponential backoff between two polls of one log.
//!
//! The wait grows by half with every consecutive failure, starting at five
//! minutes and never exceeding sixty. Waits are counted in nanoseconds, in
//! which every value below the ceiling is a whole number.

use vstd::arithmetic::div_mod::{lemma_div_by_multiple, lemma_div_is_ordered};
use vstd::arithmetic::power::{lemma_pow_positive, pow};
use vstd::prelude::*;

verus! {

/// Wait after a success, in nanoseconds: five minutes.
pub const BASE_NANOS: u64 = 300_000_000_000;

/// Longest wait, in nanoseconds: sixty minutes.
pub const CEILING_NANOS: u64 = 3_600_000_000_000;

/// The base wait multiplied by one and a half to the power `failures`,
/// rounded down to whole nanoseconds, before the ceiling is applied.
pub open spec fn uncapped_nanos(failures: nat) -> int {
    BASE_NANOS as int * pow(3, failures) / pow(2, failures)
}

/// The wait that follows `failures` consecutive failures, in nanoseconds:
/// the smaller of the grown base wait and the ceiling.
pub open spec fn backoff_nanos(failures: nat) -> int {
    if uncapped_nanos(failures) < CEILING_NANOS as int {
        uncapped_nanos(failures)
    } else {
        CEILING_NANOS as int
    }
}

/// Number of consecutive failures from which the ceiling applies.
pub const SATURATION: u32 = 7;

/// From seven failures on, three to the power outweighs twelve times two
/// to the power, so the grown wait is at least twelve base waits.
proof fn lemma_growth_outweighs(failures: nat)
    requires
        failures >= SATURATION,
    ensures
        pow(3, failures) >= 12 * pow(2, failures),
        pow(2, failures) > 0,
    decreases failures,
{
    lemma_pow_positive(2, failures);
    if failures == SATURATION {
        lemma_small_powers();
    } else {
        lemma_growth_outweighs((failures - 1) as nat);
        reveal_with_fuel(pow, 2);
    }
}

/// The powers of two and of three up to the seventh.
proof fn lemma_small_powers()
    ensures
        pow(2, 0) == 1 && pow(3, 0) == 1,
        pow(2, 1) == 2 && pow(3, 1) == 3,
        pow(2, 2) == 4 && pow(3, 2) == 9,
        pow(2, 3) == 8 && pow(3, 3) == 27,
        pow(2, 4) == 16 && pow(3, 4) == 81,
        pow(2, 5) == 32 && pow(3, 5) == 243,
        pow(2, 6) == 64 && pow(3, 6) == 729,
        pow(2, 7) == 128 && pow(3, 7) == 2187,
{
    reveal_with_fuel(pow, 8);
}

/// The waits below the ceiling, one for each count of failures under seven.
proof fn lemma_waits_below_ceiling()
    ensures
        backoff_nanos(0) == 300_000_000_000,
        backoff_nanos(1) == 450_000_000_000,
        backoff_nanos(2) == 675_000_000_000,
        backoff_nanos(3) == 1_012_500_000_000,
        backoff_nanos(4) == 1_518_750_000_000,
        backoff_nanos(5) == 2_278_125_000_000,
        backoff_nanos(6) == 3_417_187_500_000,
{
    lemma_small_powers();
}

/// With no failure behind it the wait is the base wait.
pub proof fn lemma_backoff_at_rest()
    ensures
        backoff_nanos(0) == BASE_NANOS,
{
    lemma_waits_below_ceiling();
}

/// From seven consecutive failures on the wait is the ceiling.
pub proof fn lemma_backoff_saturates(failures: nat)
    requires
        failures >= SATURATION,
    ensures
        backoff_nanos(failures) == CEILING_NANOS,
{
    lemma_growth_outweighs(failures);
    let three: int = pow(3, failures);
    let two: int = pow(2, failures);
    let base: int = BASE_NANOS as int;
    assert(base * three >= (12 * base) * two) by (nonlinear_arith)
        requires
            three >= 12 * two,
            base >= 0,
    ;
    lemma_div_is_ordered((12 * base) * two, base * three, two);
    lemma_div_by_multiple(12 * base, two);
}

/// The wait never exceeds the ceiling and is never shorter than the base
/// wait.
pub proof fn lemma_backoff_bounded(failures: nat)
    ensures
        BASE_NANOS <= backoff_nanos(failures) <= CEILING_NANOS,
{
    if failures >= SATURATION {
        lemma_backoff_saturates(failures);
    } else {
        lemma_waits_below_ceiling();
    }
}

/// The wait does not shrink as failures accumulate.
pub proof fn lemma_backoff_monotonic(fewer: nat, more: nat)
    requires
        fewer <= more,
    ensures
        backoff_nanos(fewer) <= backoff_nanos(more),
{
    if more >= SATURATION {
        lemma_backoff_saturates(more);
        lemma_backoff_bounded(fewer);
    } else {
        lemma_waits_below_ceiling();
    }
}

/// The wait before the next poll after `failures` consecutive failures, in
/// nanoseconds.
pub fn calculate_backoff(failures: u32) -> (nanos: u64)
    ensures
        nanos == backoff_nanos(failures as nat),
        BASE_NANOS <= nanos <= CEILING_NANOS,
        failures == 0 ==> nanos == BASE_NANOS,
        failures >= SATURATION ==> nanos == CEILING_NANOS,
{
    proof {
        lemma_backoff_bounded(failures as nat);
        lemma_waits_below_ceiling();
    }
    if failures >= SATURATION {
        proof {
            lemma_backoff_saturates(failures as nat);
        }
        return CEILING_NANOS;
    }
    let mut nanos: u64 = BASE_NANOS;
    let mut grown: u32 = 0;
    while grown < failures
        invariant
            grown <= failures < SATURATION,
            nanos == backoff_nanos(grown as nat),
        decreases failures - grown,
    {
        proof {
            lemma_waits_below_ceiling();
        }
        nanos = nanos + nanos / 2;
        grown = grown + 1;
    }
    nanos
}

} // verus!
