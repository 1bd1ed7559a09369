//! Tiered rate engine: maps a valuation (market cap) to a velocity limit and a
//! per-swap size cap through an ordered threshold table and a Fibonacci weight
//! schedule. Thresholds are strictly increasing and weights non-decreasing, so
//! both limits are monotone in the valuation. Tier intervals are closed below:
//! a valuation exactly equal to a threshold belongs to the higher tier.
use vstd::prelude::*;

verus! {

use crate::LAMPORTS_PER_SOL;

/// Base size-cap rate in basis points, added to the tier weight below the top.
pub const FIB_START_BPS: u64 = 1;

/// Size-cap rate in basis points once the valuation reaches the top override.
pub const MAX_SWAP_BPS_AT_TOP: u64 = 100;

/// Market-cap threshold (in SOL) at which tier `i` begins.
pub open spec fn spec_threshold(i: int) -> u64 {
    if i == 0 {
        1_000_000
    } else if i == 1 {
        3_000_000
    } else if i == 2 {
        7_000_000
    } else if i == 3 {
        15_000_000
    } else if i == 4 {
        30_000_000
    } else if i == 5 {
        70_000_000
    } else {
        if i == 6 {
            150_000_000
        } else {
            300_000_000
        }
    }
}

/// Velocity allowance (in SOL per block) of tier `i`.
pub open spec fn spec_velocity_sol(i: int) -> u64 {
    if i == 0 {
        1
    } else if i == 1 {
        3
    } else if i == 2 {
        7
    } else if i == 3 {
        15
    } else if i == 4 {
        30
    } else if i == 5 {
        70
    } else {
        if i == 6 {
            150
        } else {
            300
        }
    }
}

/// Fibonacci weight of tier `i`, used for the size-cap rate below the top.
pub open spec fn spec_fib_weight(i: int) -> u64 {
    if i == 0 {
        1
    } else if i == 1 {
        2
    } else if i == 2 {
        3
    } else if i == 3 {
        5
    } else if i == 4 {
        8
    } else if i == 5 {
        13
    } else {
        if i == 6 {
            21
        } else {
            34
        }
    }
}

/// The tier of a valuation: the greatest `i` with `valuation >= threshold(i)`,
/// or the lowest tier when the valuation is below every threshold.
pub open spec fn spec_tier(valuation: u64) -> int {
    if valuation >= spec_threshold(7) {
        7
    } else if valuation >= spec_threshold(6) {
        6
    } else if valuation >= spec_threshold(5) {
        5
    } else if valuation >= spec_threshold(4) {
        4
    } else if valuation >= spec_threshold(3) {
        3
    } else if valuation >= spec_threshold(2) {
        2
    } else if valuation >= spec_threshold(1) {
        1
    } else {
        0
    }
}

/// Tier threshold table, by index.
pub fn threshold(i: usize) -> (r: u64)
    requires
        i < 8,
    ensures
        r == spec_threshold(i as int),
{
    if i == 0 {
        1_000_000
    } else if i == 1 {
        3_000_000
    } else if i == 2 {
        7_000_000
    } else if i == 3 {
        15_000_000
    } else if i == 4 {
        30_000_000
    } else if i == 5 {
        70_000_000
    } else if i == 6 {
        150_000_000
    } else {
        300_000_000
    }
}

/// The tier a valuation falls in. Total: never out of range, never fails.
pub fn tier(valuation: u64) -> (t: usize)
    ensures
        t == spec_tier(valuation),
        t < 8,
{
    if valuation >= 300_000_000 {
        7
    } else if valuation >= 150_000_000 {
        6
    } else if valuation >= 70_000_000 {
        5
    } else if valuation >= 30_000_000 {
        4
    } else if valuation >= 15_000_000 {
        3
    } else if valuation >= 7_000_000 {
        2
    } else if valuation >= 3_000_000 {
        1
    } else {
        0
    }
}

/// Velocity limit in lamports per block for a market cap given in SOL.
pub open spec fn spec_velocity_limit(mcap_sol: u64) -> int {
    spec_velocity_sol(spec_tier(mcap_sol)) * LAMPORTS_PER_SOL
}

/// Velocity limit (lamports per block) for a market cap given in SOL.
pub fn velocity_limit(mcap_sol: u64) -> (r: u64)
    ensures
        r == spec_velocity_limit(mcap_sol),
{
    let t = tier(mcap_sol);
    let w: u64 = if t == 0 {
        1
    } else if t == 1 {
        3
    } else if t == 2 {
        7
    } else if t == 3 {
        15
    } else if t == 4 {
        30
    } else if t == 5 {
        70
    } else if t == 6 {
        150
    } else {
        300
    };
    w * LAMPORTS_PER_SOL
}

/// Size-cap rate in basis points for a market cap (in SOL) under a top-tier
/// override threshold (in SOL).
pub open spec fn spec_cap_bps(mcap_sol: u64, top_tier_sol: u64) -> u64 {
    if mcap_sol >= top_tier_sol {
        MAX_SWAP_BPS_AT_TOP
    } else {
        (FIB_START_BPS + spec_fib_weight(spec_tier(mcap_sol))) as u64
    }
}

/// Per-swap size cap: `supply * bps / 10_000` in exact integer arithmetic.
/// Division truncates toward zero, a deliberate under-cap bias.
pub open spec fn spec_buy_cap(mcap_lamports: u64, supply: u64, top_tier_sol: u64) -> int {
    supply * spec_cap_bps((mcap_lamports / LAMPORTS_PER_SOL) as u64, top_tier_sol) / 10_000
}

/// Per-swap size cap in base units for a market cap given in lamports.
/// Computed in wide arithmetic and proved in range: it never overflows and
/// never exceeds the supply.
pub fn buy_cap(mcap_lamports: u64, supply: u64, top_tier_sol: u64) -> (r: u64)
    ensures
        r == spec_buy_cap(mcap_lamports, supply, top_tier_sol),
        r <= supply,
{
    let mcap_sol = mcap_lamports / LAMPORTS_PER_SOL;
    let t = tier(mcap_sol);
    let bps: u64 = if mcap_sol >= top_tier_sol {
        MAX_SWAP_BPS_AT_TOP
    } else {
        let w: u64 = if t == 0 {
            1
        } else if t == 1 {
            2
        } else if t == 2 {
            3
        } else if t == 3 {
            5
        } else if t == 4 {
            8
        } else if t == 5 {
            13
        } else if t == 6 {
            21
        } else {
            34
        };
        FIB_START_BPS + w
    };
    assert(bps == spec_cap_bps(mcap_sol, top_tier_sol));
    assert(bps <= 100);
    proof {
        assert(supply * bps <= supply * 100) by (nonlinear_arith)
            requires
                bps <= 100,
        ;
        assert(supply * 100 / 10_000 <= supply) by (nonlinear_arith);
        vstd::arithmetic::div_mod::lemma_div_is_ordered(
            supply as int * bps as int,
            supply as int * 100,
            10_000,
        );
    }
    let wide: u128 = (supply as u128) * (bps as u128) / 10_000;
    wide as u64
}

/// Law: the tier index never decreases as the valuation grows.
pub proof fn lemma_tier_monotonic(v1: u64, v2: u64)
    requires
        v1 <= v2,
    ensures
        spec_tier(v1) <= spec_tier(v2),
{
}

/// Law: tier intervals are closed below. A valuation exactly on a threshold
/// belongs to that threshold's tier, and one unit below belongs to the tier
/// beneath it (the lowest threshold bounds the lowest tier, so only tiers
/// above it have a tier beneath).
pub proof fn lemma_tier_boundary(i: int)
    requires
        0 <= i < 8,
    ensures
        spec_tier(spec_threshold(i)) == i,
        i >= 1 ==> spec_tier((spec_threshold(i) - 1) as u64) == i - 1,
{
}

/// Law: the velocity limit never decreases as the valuation grows.
pub proof fn lemma_velocity_limit_monotonic(v1: u64, v2: u64)
    requires
        v1 <= v2,
    ensures
        spec_velocity_limit(v1) <= spec_velocity_limit(v2),
{
    lemma_tier_monotonic(v1, v2);
    assert(spec_velocity_sol(spec_tier(v1)) <= spec_velocity_sol(spec_tier(v2)));
}

/// Law: the size cap never decreases as the market cap grows, for any fixed
/// supply and top-tier override.
pub proof fn lemma_buy_cap_monotonic(m1: u64, m2: u64, supply: u64, top_tier_sol: u64)
    requires
        m1 <= m2,
    ensures
        spec_buy_cap(m1, supply, top_tier_sol) <= spec_buy_cap(m2, supply, top_tier_sol),
{
    let sol1 = (m1 / LAMPORTS_PER_SOL) as u64;
    let sol2 = (m2 / LAMPORTS_PER_SOL) as u64;
    vstd::arithmetic::div_mod::lemma_div_is_ordered(m1 as int, m2 as int, LAMPORTS_PER_SOL as int);
    lemma_tier_monotonic(sol1, sol2);
    let bps1 = spec_cap_bps(sol1, top_tier_sol);
    let bps2 = spec_cap_bps(sol2, top_tier_sol);
    assert(bps1 <= bps2);
    vstd::arithmetic::mul::lemma_mul_inequality(bps1 as int, bps2 as int, supply as int);
    vstd::arithmetic::mul::lemma_mul_is_commutative(bps1 as int, supply as int);
    vstd::arithmetic::mul::lemma_mul_is_commutative(bps2 as int, supply as int);
    vstd::arithmetic::div_mod::lemma_div_is_ordered(
        supply as int * bps1 as int,
        supply as int * bps2 as int,
        10_000,
    );
}

} // verus!
