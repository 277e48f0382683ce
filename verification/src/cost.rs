//! The time-weighted monthly-cost computation.
//!
//! Cost accrues linearly: an annual per-unit cost (in whole currency
//! units per 64 GB) is divided by a fixed 365-day year and multiplied
//! by the seconds elapsed since the start of the current UTC calendar
//! month. The fixed-length year is part of the published formula and is
//! preserved exactly; the value is kept as the exact rational
//! `numerator / COST_DENOMINATOR` rather than rounded.

use vstd::prelude::*;
use vstd::arithmetic::mul::lemma_mul_inequality;
use vstd::arithmetic::mul::lemma_mul_upper_bound;

verus! {

/// Seconds in the fixed 365-day year of the accrual model.
pub const SECONDS_PER_YEAR: u64 = 31_536_000;

/// The longest stretch a UTC calendar month can cover, in seconds
/// (31 days); seconds-since-month-start always stays below this.
pub const MAX_MONTH_SECONDS: u64 = 2_678_400;

/// Largest accepted per-unit annual cost. The bound keeps every
/// numerator below `2^128` for any `u64` node memory, so the exact
/// arithmetic cannot overflow; configured costs are far smaller.
pub const MAX_ERU_COST: u64 = 1_000_000_000;

/// Largest possible cents numerator under the two bounds above.
pub const MAX_CENTS_NUMERATOR: u128 = 1_000_000_000 * 100 * 2_678_400;

/// Denominator of the exact monthly-cost rational: seconds per year,
/// times 1024 MB per GB, times 64 GB per cost unit.
pub const COST_DENOMINATOR: u64 = SECONDS_PER_YEAR * 1024 * 64;

/// Numerator, over [`SECONDS_PER_YEAR`], of the cents accrued per GB
/// since the month began: unit cost, times 100 cents, times elapsed
/// seconds.
pub open spec fn cents_numerator(eru_cost: u64, seconds: u64) -> int {
    eru_cost * 100 * seconds
}

/// Numerator, over [`COST_DENOMINATOR`], of the monthly cost of one
/// instance: its node memory in MB, times the cents numerator.
pub open spec fn cost_numerator(node_memory: u64, eru_cost: u64, seconds: u64) -> int {
    node_memory * cents_numerator(eru_cost, seconds)
}

/// Computes the cents-per-GB numerator for the elapsed month time.
pub fn cents_per_gb_numerator(eru_cost: u64, seconds_since_month_start: u64) -> (c: u128)
    requires
        eru_cost <= MAX_ERU_COST,
        seconds_since_month_start <= MAX_MONTH_SECONDS,
    ensures
        c == cents_numerator(eru_cost, seconds_since_month_start),
        c <= MAX_CENTS_NUMERATOR,
{
    proof {
        lemma_mul_upper_bound(
            eru_cost * 100,
            100_000_000_000,
            seconds_since_month_start as int,
            MAX_MONTH_SECONDS as int,
        );
    }
    (eru_cost as u128) * 100 * (seconds_since_month_start as u128)
}

/// Computes the monthly-cost numerator of one instance from its node
/// memory and the cents-per-GB numerator of the current scrape.
pub fn monthly_cost_numerator(node_memory: u64, cents: u128) -> (n: u128)
    requires
        cents <= MAX_CENTS_NUMERATOR,
    ensures
        n == node_memory * cents,
{
    proof {
        lemma_mul_upper_bound(
            node_memory as int,
            u64::MAX as int,
            cents as int,
            MAX_CENTS_NUMERATOR as int,
        );
    }
    (node_memory as u128) * cents
}

/// Law: for a fixed node memory and unit cost, the monthly-cost
/// numerator never decreases as the seconds since the month start
/// advance, and at the month boundary (zero elapsed seconds) it is
/// exactly zero whatever the node memory.
pub proof fn lemma_monthly_cost_monotonic(node_memory: u64, eru_cost: u64, s1: u64, s2: u64)
    requires
        s1 <= s2,
    ensures
        cost_numerator(node_memory, eru_cost, s1) <= cost_numerator(node_memory, eru_cost, s2),
        cost_numerator(node_memory, eru_cost, 0) == 0,
{
    lemma_mul_inequality(s1 as int, s2 as int, eru_cost * 100);
    assert(eru_cost * 100 * s1 == s1 * (eru_cost * 100)) by (nonlinear_arith);
    assert(eru_cost * 100 * s2 == s2 * (eru_cost * 100)) by (nonlinear_arith);
    lemma_mul_inequality(
        cents_numerator(eru_cost, s1),
        cents_numerator(eru_cost, s2),
        node_memory as int,
    );
    assert(node_memory * cents_numerator(eru_cost, s1) == cents_numerator(eru_cost, s1)
        * node_memory) by (nonlinear_arith);
    assert(node_memory * cents_numerator(eru_cost, s2) == cents_numerator(eru_cost, s2)
        * node_memory) by (nonlinear_arith);
    assert(eru_cost * 100 * 0 == 0) by (nonlinear_arith);
    assert(node_memory * 0 == 0) by (nonlinear_arith);
    assert(cost_numerator(node_memory, eru_cost, 0) == 0);
}

} // verus!
