//! Block weight limits, derived from the maximum block weight by `Perbill` ratios.
use vstd::prelude::*;

use sp_arithmetic::traits::Saturating;
use sp_arithmetic::Perbill;

verus! {

/// Computation weight.
pub type Weight = u64;

/// Parts per billion: the accuracy of a `Perbill`.
pub const BILLION: u32 = 1_000_000_000;

/// The weight of one second of computation.
pub const WEIGHT_PER_SECOND: Weight = 1_000_000_000_000;

/// We allow for 2 seconds of compute with a 6 second average block time.
pub const MAXIMUM_BLOCK_WEIGHT: Weight = 2 * WEIGHT_PER_SECOND;

/// The parts per billion of `x` percent, `x` held at 100.
pub open spec fn spec_from_percent(x: nat) -> nat {
    if x > 100 {
        100 * 10_000_000
    } else {
        x * 10_000_000
    }
}

/// `a - b` in parts per billion, held at zero.
pub open spec fn spec_saturating_sub(a: nat, b: nat) -> nat {
    if a >= b {
        (a - b) as nat
    } else {
        0
    }
}

/// `x` times `parts` parts per billion, rounded to the nearest whole number
/// (an exact half is rounded down): whole billions of `x` are scaled exactly
/// and the rest of `x` is scaled and rounded.
pub open spec fn spec_perbill_mul(parts: nat, x: nat) -> nat {
    let m: nat = BILLION as nat;
    let rest = (x % m) * parts;
    (x / m) * parts + rest / m + (if rest % m > m / 2 {
        1nat
    } else {
        0nat
    })
}

/// The parts per billion that approximate `p / q`: `q` is taken as at least 1
/// and `p` as at most `q`; both are divided by `ceil(q / billion)` (at least
/// 1) and the quotient of the reduced values is taken in billionths, rounded down.
pub open spec fn spec_from_rational(p: nat, q: nat) -> nat {
    let m: nat = BILLION as nat;
    let q1: nat = if q < 1 {
        1
    } else {
        q
    };
    let p1: nat = if p > q1 {
        q1
    } else {
        p
    };
    let ceil: nat = q1 / m + (if q1 % m > 0 {
        1nat
    } else {
        0nat
    });
    let f: nat = if ceil < 1 {
        1
    } else {
        ceil
    };
    (p1 / f) * m / (q1 / f)
}

/// `Perbill::from_percent` of `sp_arithmetic`, taken as its parts per billion:
/// its source computes `min(x, 100) * 1_000_000_000 / 100`.
#[verifier::external_body]
fn perbill_from_percent(x: u32) -> (parts: u32)
    ensures
        parts == spec_from_percent(x as nat),
{
    Perbill::from_percent(x).deconstruct()
}

/// `Saturating::saturating_sub` of `Perbill` in `sp_arithmetic`, on parts per
/// billion: its source subtracts the parts, held at zero.
#[verifier::external_body]
fn perbill_saturating_sub(a: u32, b: u32) -> (parts: u32)
    requires
        a <= BILLION,
        b <= BILLION,
    ensures
        parts == spec_saturating_sub(a as nat, b as nat),
{
    Perbill::from_parts(a).saturating_sub(Perbill::from_parts(b)).deconstruct()
}

/// `Perbill * u64` of `sp_arithmetic`: its source multiplies the whole
/// billions of `x` by the parts and adds the rest of `x` times the parts
/// divided by a billion, rounded to the nearest (an exact half down).
#[verifier::external_body]
fn perbill_mul(parts: u32, x: u64) -> (r: u64)
    requires
        parts <= BILLION,
    ensures
        r == spec_perbill_mul(parts as nat, x as nat),
{
    Perbill::from_parts(parts) * x
}

/// `Perbill::from_rational_approximation` of `sp_arithmetic` on `u32`, taken
/// as its parts per billion; its source is restated by `spec_from_rational`.
#[verifier::external_body]
fn perbill_from_rational_approximation(p: u32, q: u32) -> (parts: u32)
    ensures
        parts == spec_from_rational(p as nat, q as nat),
{
    Perbill::from_rational_approximation(p, q).deconstruct()
}

/// Portion of the block weight that is available to all normal transactions:
/// 75%, in parts per billion.
pub fn available_block_ratio() -> (parts: u32)
    ensures
        parts == spec_from_percent(75),
        parts == 750_000_000,
{
    perbill_from_percent(75)
}

/// The maximum weight that a single extrinsic can have: the available block
/// ratio less 10% (kept for average `on_initialize` calls), of the maximum
/// block weight.
pub fn maximum_extrinsic_weight() -> (r: Weight)
    ensures
        r == spec_perbill_mul(
            spec_saturating_sub(spec_from_percent(75), spec_from_percent(10)),
            MAXIMUM_BLOCK_WEIGHT as nat,
        ),
        r == 1_300_000_000_000,
{
    let ratio = perbill_saturating_sub(available_block_ratio(), perbill_from_percent(10));
    perbill_mul(ratio, MAXIMUM_BLOCK_WEIGHT)
}

/// The maximum weight that scheduled calls may take in a block: 80% of the
/// maximum block weight.
pub fn maximum_scheduler_weight() -> (r: Weight)
    ensures
        r == spec_perbill_mul(spec_from_percent(80), MAXIMUM_BLOCK_WEIGHT as nat),
        r == 1_600_000_000_000,
{
    perbill_mul(perbill_from_percent(80), MAXIMUM_BLOCK_WEIGHT)
}

/// The weight over which offence reports are deferred: 60% of the maximum block weight.
pub fn offences_weight_soft_limit() -> (r: Weight)
    ensures
        r == spec_perbill_mul(spec_from_percent(60), MAXIMUM_BLOCK_WEIGHT as nat),
        r == 1_200_000_000_000,
{
    perbill_mul(perbill_from_percent(60), MAXIMUM_BLOCK_WEIGHT)
}

/// The share of validators that may be disabled before a new era is forced: 33%.
pub fn disabled_validators_threshold() -> (parts: u32)
    ensures
        parts == spec_from_percent(33),
        parts == 330_000_000,
{
    perbill_from_percent(33)
}

/// The least improvement by which a new election solution must beat the
/// current one: 5 in 10 000 (0.05%), in parts per billion.
pub fn min_solution_score_bump() -> (parts: u32)
    ensures
        parts == spec_from_rational(5, 10_000),
        parts == 500_000,
{
    assert(10_000nat / 1_000_000_000nat == 0 && 10_000nat % 1_000_000_000nat == 10_000);
    assert(5nat / 1nat == 5 && 10_000nat / 1nat == 10_000);
    assert(5nat * 1_000_000_000nat / 10_000nat == 500_000);
    perbill_from_rational_approximation(5, 10_000)
}

/// A whole multiple of a billion is scaled exactly: no rounding is involved.
pub proof fn lemma_perbill_mul_whole_billions(parts: nat, k: nat)
    ensures
        spec_perbill_mul(parts, k * BILLION as nat) == k * parts,
{
    let m = BILLION as nat;
    vstd::arithmetic::div_mod::lemma_mod_multiples_basic(k as int, m as int);
    vstd::arithmetic::div_mod::lemma_div_multiples_vanish(k as int, m as int);
    vstd::arithmetic::mul::lemma_mul_is_commutative(k as int, m as int);
}

/// A ratio of parts per billion never yields more than the whole: the result
/// is at most `x`, and at most `x` scaled by the ratio rounded up by one.
pub proof fn lemma_perbill_mul_bounded(parts: nat, x: nat)
    requires
        parts <= BILLION,
    ensures
        spec_perbill_mul(parts, x) <= x,
        spec_perbill_mul(parts, x) * (BILLION as nat) <= x * parts + BILLION as nat,
{
    let m: int = BILLION as int;
    let xi = x as int;
    let pi = parts as int;
    let w = xi / m;
    let r = xi % m;
    let rest = r * pi;
    vstd::arithmetic::div_mod::lemma_fundamental_div_mod(xi, m);
    vstd::arithmetic::div_mod::lemma_mod_bound(xi, m);
    vstd::arithmetic::div_mod::lemma_fundamental_div_mod(rest, m);
    vstd::arithmetic::div_mod::lemma_mod_bound(rest, m);
    let d = rest / m;
    let e: int = if rest % m > m / 2 {
        1
    } else {
        0
    };
    assert(rest >= 0) by (nonlinear_arith)
        requires
            r >= 0,
            pi >= 0,
            rest == r * pi,
    ;
    assert(rest <= r * m) by (nonlinear_arith)
        requires
            r >= 0,
            pi <= m,
            rest == r * pi,
    ;
    // The rounded share of the remainder stays within the remainder.
    assert(d + e <= r) by (nonlinear_arith)
        requires
            rest == m * d + rest % m,
            0 <= rest % m < m,
            rest <= r * m,
            r < m,
            m == 1_000_000_000,
            e == (if rest % m > m / 2 {
                1int
            } else {
                0int
            }),
            r >= 0,
    ;
    assert(w * pi <= w * m) by (nonlinear_arith)
        requires
            w >= 0,
            pi <= m,
    ;
    assert((w * pi + d + e) * m <= xi * pi + m) by (nonlinear_arith)
        requires
            xi == m * w + r,
            rest == r * pi,
            rest == m * d + rest % m,
            0 <= rest % m,
            e <= 1,
            e >= 0,
            m > 0,
    ;
}

} // verus!
