//! Fee splitter: decomposes a gross amount into a total tax, weighted tax
//! components and a net remainder, all in exact integer arithmetic. The
//! components are carved out of the total tax by a running-remainder
//! allocation so that they sum to the total tax exactly: independent
//! per-component truncation could silently drop up to `k - 1` units.
use vstd::prelude::*;

verus! {

use crate::{MothershipError, BPS_DENOMINATOR, GLOBAL_TAX_BPS};

/// Sum of a sequence of weights, as an unbounded integer.
pub open spec fn sum_weights(s: Seq<u64>) -> int
    decreases s.len(),
{
    if s.len() == 0 {
        0
    } else {
        sum_weights(s.drop_last()) + s.last()
    }
}

/// A sum of weights is never negative.
pub proof fn lemma_sum_nonneg(s: Seq<u64>)
    ensures
        sum_weights(s) >= 0,
    decreases s.len(),
{
    if s.len() > 0 {
        lemma_sum_nonneg(s.drop_last());
    }
}

/// Extending a prefix by one element adds that element to its sum.
pub proof fn lemma_sum_prefix_step(s: Seq<u64>, k: int)
    requires
        0 <= k < s.len(),
    ensures
        sum_weights(s.subrange(0, k + 1)) == sum_weights(s.subrange(0, k)) + s[k],
{
    assert(s.subrange(0, k + 1).drop_last() =~= s.subrange(0, k));
    assert(s.subrange(0, k + 1).last() == s[k]);
}

/// A prefix sum never exceeds the sum of the whole sequence.
pub proof fn lemma_sum_prefix_bounded(s: Seq<u64>, k: int)
    requires
        0 <= k <= s.len(),
    ensures
        sum_weights(s.subrange(0, k)) <= sum_weights(s),
    decreases s.len() - k,
{
    if k == s.len() {
        assert(s.subrange(0, k) =~= s);
    } else {
        lemma_sum_prefix_step(s, k);
        lemma_sum_prefix_bounded(s, k + 1);
    }
}

/// A validated tax schedule: a total rate and component weights, all in basis
/// points, with the weights summing exactly to the total.
#[derive(Debug)]
pub struct SplitConfig {
    pub total_tax_bps: u64,
    pub weights: Vec<u64>,
}

impl SplitConfig {
    /// A schedule is well formed when its weights sum to its total rate and
    /// the rate does not exceed the basis-point denominator (so the tax can
    /// never exceed the gross amount).
    pub open spec fn wf(&self) -> bool {
        sum_weights(self.weights@) == self.total_tax_bps && self.total_tax_bps
            <= BPS_DENOMINATOR
    }

    /// Validates a tax schedule once, at configuration time, so that `split`
    /// itself carries no per-call weight check.
    pub fn new(total_tax_bps: u64, weights: Vec<u64>) -> (r: Result<SplitConfig, MothershipError>)
        ensures
            r matches Ok(c) ==> c.wf() && c.total_tax_bps == total_tax_bps && c.weights@
                == weights@,
            r is Ok <==> sum_weights(weights@) == total_tax_bps && total_tax_bps
                <= BPS_DENOMINATOR,
            r matches Err(e) ==> e == MothershipError::InvalidTaxConfig,
    {
        let mut acc: u64 = 0;
        let mut i: usize = 0;
        while i < weights.len()
            invariant
                0 <= i <= weights.len(),
                acc == sum_weights(weights@.subrange(0, i as int)),
                acc <= BPS_DENOMINATOR,
            decreases weights.len() - i,
        {
            let w = weights[i];
            proof {
                lemma_sum_prefix_step(weights@, i as int);
            }
            if w > BPS_DENOMINATOR - acc {
                proof {
                    lemma_sum_prefix_bounded(weights@, i as int + 1);
                }
                return Err(MothershipError::InvalidTaxConfig);
            }
            acc = acc + w;
            i = i + 1;
        }
        assert(weights@.subrange(0, weights@.len() as int) =~= weights@);
        if acc == total_tax_bps {
            Ok(SplitConfig { total_tax_bps, weights })
        } else {
            Err(MothershipError::InvalidTaxConfig)
        }
    }
}

/// The total tax owed on a gross amount under a rate in basis points, with
/// truncating integer division.
pub open spec fn spec_total_tax(gross: u64, bps: u64) -> int {
    gross * bps / (BPS_DENOMINATOR as int)
}

/// The cumulative tax allocated to the first `k` components: the running
/// remainder carries each truncation loss into the next component.
pub open spec fn spec_cum_tax(gross: u64, cfg: SplitConfig, k: int) -> int {
    if cfg.total_tax_bps == 0 {
        0
    } else {
        spec_total_tax(gross, cfg.total_tax_bps) * sum_weights(cfg.weights@.subrange(0, k)) / (
        cfg.total_tax_bps as int)
    }
}

/// The exact share of component `i`.
pub open spec fn spec_component(gross: u64, cfg: SplitConfig, i: int) -> int {
    spec_cum_tax(gross, cfg, i + 1) - spec_cum_tax(gross, cfg, i)
}

/// A gross amount decomposed into a conserved set of sub-amounts:
/// `net + total_tax == gross` and the components sum to `total_tax` exactly.
#[derive(Debug)]
pub struct FeeBreakdown {
    pub total_tax: u64,
    pub components: Vec<u64>,
    pub net: u64,
}

/// Tax allocated to the first `k` components never exceeds the total tax, and
/// never shrinks as `k` grows.
proof fn lemma_cum_tax_bounds(gross: u64, cfg: SplitConfig, k: int)
    requires
        cfg.wf(),
        0 <= k <= cfg.weights@.len(),
    ensures
        0 <= spec_cum_tax(gross, cfg, k) <= spec_total_tax(gross, cfg.total_tax_bps),
        k < cfg.weights@.len() ==> spec_cum_tax(gross, cfg, k) <= spec_cum_tax(gross, cfg, k + 1),
{
    let tax = spec_total_tax(gross, cfg.total_tax_bps);
    assert(tax >= 0) by {
        vstd::arithmetic::div_mod::lemma_div_is_ordered(0, gross as int * cfg.total_tax_bps as int, BPS_DENOMINATOR as int);
    }
    if cfg.total_tax_bps != 0 {
        let d = cfg.total_tax_bps as int;
        let pk = sum_weights(cfg.weights@.subrange(0, k));
        lemma_sum_nonneg(cfg.weights@.subrange(0, k));
        lemma_sum_prefix_bounded(cfg.weights@, k);
        vstd::arithmetic::mul::lemma_mul_inequality(0, pk, tax);
        vstd::arithmetic::mul::lemma_mul_is_commutative(pk, tax);
        vstd::arithmetic::div_mod::lemma_div_is_ordered(0, tax * pk, d);
        vstd::arithmetic::mul::lemma_mul_inequality(pk, d, tax);
        vstd::arithmetic::mul::lemma_mul_is_commutative(d, tax);
        vstd::arithmetic::div_mod::lemma_div_is_ordered(tax * pk, tax * d, d);
        vstd::arithmetic::div_mod::lemma_div_multiples_vanish(tax, d);
        vstd::arithmetic::mul::lemma_mul_is_commutative(tax, d);
        if k < cfg.weights@.len() {
            lemma_sum_prefix_step(cfg.weights@, k);
            let pk1 = sum_weights(cfg.weights@.subrange(0, k + 1));
            vstd::arithmetic::mul::lemma_mul_inequality(pk, pk1, tax);
            vstd::arithmetic::mul::lemma_mul_is_commutative(pk, tax);
            vstd::arithmetic::mul::lemma_mul_is_commutative(pk1, tax);
            vstd::arithmetic::div_mod::lemma_div_is_ordered(tax * pk, tax * pk1, d);
        }
    }
}

/// The cumulative tax for a prefix, written over the executable running sum.
proof fn lemma_cum_tax_value(gross: u64, cfg: SplitConfig, k: int, t: u64, acc: u64)
    requires
        cfg.total_tax_bps != 0,
        t == spec_total_tax(gross, cfg.total_tax_bps),
        acc == sum_weights(cfg.weights@.subrange(0, k)),
    ensures
        spec_cum_tax(gross, cfg, k) == (t as int * acc as int) / (cfg.total_tax_bps as int),
{
}

/// Splits a gross amount under a validated schedule. The division truncates
/// toward zero, so the tax is an under-approximation of the exact rate; the
/// running-remainder allocation then conserves every unit of the tax across
/// the components.
pub fn split(cfg: &SplitConfig, gross: u64) -> (fb: FeeBreakdown)
    requires
        cfg.wf(),
    ensures
        fb.total_tax == spec_total_tax(gross, cfg.total_tax_bps),
        fb.net + fb.total_tax == gross,
        fb.components@.len() == cfg.weights@.len(),
        forall|i: int|
            0 <= i < fb.components@.len() ==> fb.components@[i] == spec_component(
                gross,
                *cfg,
                i,
            ),
        sum_weights(fb.components@) == fb.total_tax,
{
    let bps = cfg.total_tax_bps;
    proof {
        vstd::arithmetic::mul::lemma_mul_inequality(
            bps as int,
            BPS_DENOMINATOR as int,
            gross as int,
        );
        vstd::arithmetic::mul::lemma_mul_is_commutative(bps as int, gross as int);
        vstd::arithmetic::mul::lemma_mul_is_commutative(BPS_DENOMINATOR as int, gross as int);
        vstd::arithmetic::div_mod::lemma_div_is_ordered(
            gross as int * bps as int,
            gross as int * BPS_DENOMINATOR as int,
            BPS_DENOMINATOR as int,
        );
        vstd::arithmetic::div_mod::lemma_div_multiples_vanish(
            gross as int,
            BPS_DENOMINATOR as int,
        );
        vstd::arithmetic::div_mod::lemma_div_is_ordered(
            0,
            gross as int * bps as int,
            BPS_DENOMINATOR as int,
        );
    }
    let total_tax: u64 = ((gross as u128) * (bps as u128) / (BPS_DENOMINATOR as u128)) as u64;
    let net: u64 = gross - total_tax;
    let ghost tax = spec_total_tax(gross, bps);

    let mut components: Vec<u64> = Vec::new();
    let mut prev: u64 = 0;
    let mut acc_w: u64 = 0;
    let mut i: usize = 0;
    while i < cfg.weights.len()
        invariant
            cfg.wf(),
            0 <= i <= cfg.weights@.len(),
            bps == cfg.total_tax_bps,
            total_tax == tax == spec_total_tax(gross, cfg.total_tax_bps),
            total_tax <= gross,
            acc_w == sum_weights(cfg.weights@.subrange(0, i as int)),
            acc_w <= cfg.total_tax_bps,
            prev == spec_cum_tax(gross, *cfg, i as int),
            prev <= total_tax,
            components@.len() == i,
            forall|j: int|
                0 <= j < i ==> components@[j] == spec_component(gross, *cfg, j),
            sum_weights(components@) == prev,
        decreases cfg.weights@.len() - i,
    {
        proof {
            lemma_sum_prefix_step(cfg.weights@, i as int);
            lemma_sum_prefix_bounded(cfg.weights@, i as int + 1);
            lemma_sum_nonneg(cfg.weights@.subrange(0, i as int));
            lemma_cum_tax_bounds(gross, *cfg, i as int);
            lemma_cum_tax_bounds(gross, *cfg, i as int + 1);
        }
        let w = cfg.weights[i];
        acc_w = acc_w + w;
        proof {
            assert(total_tax as int * acc_w as int <= 0xffff_ffff_ffff_ffff * 10_000int)
                by (nonlinear_arith)
                requires
                    total_tax <= 0xffff_ffff_ffff_ffffu64,
                    acc_w <= 10_000,
            ;
            assert(0 <= total_tax as int * acc_w as int) by (nonlinear_arith)
                requires
                    0 <= total_tax && 0 <= acc_w,
            ;
        }
        proof {
            if bps != 0 {
                lemma_cum_tax_value(gross, *cfg, i as int + 1, total_tax, acc_w);
            }
        }
        let cum: u64 = if bps == 0 {
            0
        } else {
            ((total_tax as u128) * (acc_w as u128) / (bps as u128)) as u64
        };
        assert(cum == spec_cum_tax(gross, *cfg, i as int + 1));
        let comp = cum - prev;
        let ghost pre = components@;
        components.push(comp);
        proof {
            assert(components@.drop_last() =~= pre);
            assert(components@.last() == comp);
            assert(sum_weights(components@) == sum_weights(pre) + comp);
        }
        prev = cum;
        i = i + 1;
    }
    proof {
        assert(cfg.weights@.subrange(0, cfg.weights@.len() as int) =~= cfg.weights@);
        if bps != 0 {
            vstd::arithmetic::mul::lemma_mul_is_commutative(tax, bps as int);
            vstd::arithmetic::div_mod::lemma_div_multiples_vanish(tax, bps as int);
        }
    }
    FeeBreakdown { total_tax, components, net }
}

/// The process-wide tax schedule: a single component carrying the whole
/// global rate.
pub fn global_tax_config() -> (c: SplitConfig)
    ensures
        c.wf(),
        c.total_tax_bps == GLOBAL_TAX_BPS,
        c.weights@ =~= seq![GLOBAL_TAX_BPS],
{
    let mut weights: Vec<u64> = Vec::new();
    weights.push(GLOBAL_TAX_BPS);
    proof {
        assert(weights@.drop_last() =~= Seq::<u64>::empty());
        assert(sum_weights(Seq::<u64>::empty()) == 0);
        assert(weights@.last() == GLOBAL_TAX_BPS);
        assert(sum_weights(weights@) == sum_weights(weights@.drop_last()) + GLOBAL_TAX_BPS);
    }
    SplitConfig { total_tax_bps: GLOBAL_TAX_BPS, weights }
}

} // verus!
