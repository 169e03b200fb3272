//! Splitting transaction fees and tips between the treasury and the block author.
use vstd::prelude::*;

verus! {

/// The unit in which balances are counted.
pub type Balance = u128;

/// Parts of a fee or tip that go to the treasury.
pub const TREASURY_PARTS: u32 = 80;

/// Parts of a fee or tip that go to the block author.
pub const AUTHOR_PARTS: u32 = 20;

/// `x * y`, held at `u128::MAX` where the product does not fit.
pub open spec fn spec_saturating_mul(x: int, y: int) -> int {
    if x * y > u128::MAX {
        u128::MAX as int
    } else {
        x * y
    }
}

/// `x + y`, held at `max` where the sum does not fit.
pub open spec fn spec_saturating_add(x: int, y: int, max: int) -> int {
    if x + y > max {
        max
    } else {
        x + y
    }
}

/// The first share when `amount` is rationed `first`:`second`: the amount
/// times `first` (saturating) divided by `first + second` (saturating), and
/// never more than the amount itself.
pub open spec fn spec_ration_first(amount: int, first: int, second: int) -> int {
    let total = spec_saturating_add(first, second, u32::MAX as int);
    let share = spec_saturating_mul(amount, first) / total;
    if share < amount {
        share
    } else {
        amount
    }
}

/// `u128::saturating_mul` of std: the product, or `u128::MAX` where it does not fit.
#[verifier::external_body]
fn u128_saturating_mul(x: u128, y: u128) -> (r: u128)
    ensures
        r == spec_saturating_mul(x as int, y as int),
{
    x.saturating_mul(y)
}

/// Merges one imbalance into another: the balances pallet's `subsume` adds
/// the amounts, saturating.
fn merge(x: Balance, y: Balance) -> (r: Balance)
    ensures
        r == spec_saturating_add(x as int, y as int, u128::MAX as int),
{
    x.saturating_add(y)
}

/// Splits `amount` in about the ratio `first`:`second`, as an imbalance's
/// `ration` does: the first share is `amount * first / (first + second)`,
/// both operations saturating, held at the amount (the balances pallet's
/// `split` takes the lesser), and the second share is the rest.
pub fn ration(amount: Balance, first: u32, second: u32) -> (r: (Balance, Balance))
    requires
        first > 0 || second > 0,
    ensures
        r.0 == spec_ration_first(amount as int, first as int, second as int),
        r.0 + r.1 == amount,
{
    let total: u32 = first.saturating_add(second);
    let share = u128_saturating_mul(amount, first as u128) / (total as u128);
    let a = if share < amount {
        share
    } else {
        amount
    };
    (a, amount - a)
}

/// Where nothing saturates, the first share of a ration is `amount * first /
/// (first + second)` rounded down, and the second is the rest: the two come
/// out in the ratio `first`:`second` up to one unit of rounding.
pub proof fn lemma_ration_is_proportional(amount: u128, first: u32, second: u32)
    requires
        first + second > 0,
        first + second <= u32::MAX,
        amount * first <= u128::MAX,
    ensures
        spec_ration_first(amount as int, first as int, second as int) == amount * first / (first
            + second),
        spec_ration_first(amount as int, first as int, second as int) * (first + second) <= amount
            * first,
        amount * first < (spec_ration_first(amount as int, first as int, second as int) + 1) * (
        first + second),
{
    let t: int = first + second;
    let p: int = amount * first;
    assert(p / t <= amount) by (nonlinear_arith)
        requires
            t > 0,
            first <= t,
            p == amount * first,
            amount >= 0,
            first >= 0,
    {
        assert(amount * first <= amount * t);
        vstd::arithmetic::div_mod::lemma_div_is_ordered(p, amount * t, t);
        vstd::arithmetic::div_mod::lemma_div_multiples_vanish(amount as int, t);
        vstd::arithmetic::mul::lemma_mul_is_commutative(amount as int, t);
    }
    vstd::arithmetic::div_mod::lemma_fundamental_div_mod(p, t);
    vstd::arithmetic::div_mod::lemma_mod_bound(p, t);
    vstd::arithmetic::mul::lemma_mul_is_commutative(t, p / t);
    assert((p / t + 1) * t == (p / t) * t + t) by (nonlinear_arith);
}

/// The two shares of a ration never exceed the amount.
pub proof fn lemma_ration_first_bounded(amount: u128, first: u32, second: u32)
    requires
        first > 0 || second > 0,
    ensures
        0 <= spec_ration_first(amount as int, first as int, second as int) <= amount,
{
    let total = spec_saturating_add(first as int, second as int, u32::MAX as int);
    let prod = spec_saturating_mul(amount as int, first as int);
    assert(prod / total >= 0) by (nonlinear_arith)
        requires
            prod >= 0,
            total > 0,
    ;
}

/// How a batch of fees and tips is split between the treasury and the block author.
#[derive(Clone, Copy, Debug, PartialEq, Eq, Structural)]
pub struct FeeSplit {
    /// What goes to the treasury.
    pub treasury: Balance,
    /// What goes to the block author.
    pub author: Balance,
}

/// The treasury's share of a fee or a tip: 80 parts in 100.
pub open spec fn spec_treasury_share(amount: int) -> int {
    spec_ration_first(amount, TREASURY_PARTS as int, AUTHOR_PARTS as int)
}

/// The author's share of a fee or a tip: what the treasury does not get.
pub open spec fn spec_author_share(amount: int) -> int {
    amount - spec_treasury_share(amount)
}

/// The split of the fees (first item) and the tips (second item, if any);
/// further items are not looked at. `None` where there are no fees at all.
pub open spec fn spec_split(fees_then_tips: Seq<Balance>) -> Option<FeeSplit> {
    if fees_then_tips.len() == 0 {
        None
    } else {
        let fees = fees_then_tips[0] as int;
        let tips: int = if fees_then_tips.len() > 1 {
            fees_then_tips[1] as int
        } else {
            0
        };
        Some(
            FeeSplit {
                treasury: spec_saturating_add(
                    spec_treasury_share(fees),
                    spec_treasury_share(tips),
                    u128::MAX as int,
                ) as u128,
                author: spec_saturating_add(
                    spec_author_share(fees),
                    spec_author_share(tips),
                    u128::MAX as int,
                ) as u128,
            },
        )
    }
}

/// Deals with the fees and tips that a transaction pays: 80% to the treasury,
/// 20% to the block author.
pub struct DealWithFees;

impl DealWithFees {
    /// Splits the fees (first item) and the tips (second item) of a
    /// transaction: each is rationed 80:20 and the shares are merged, the
    /// first into the treasury's part, the second into the author's. Nothing
    /// is split where there are no fees.
    pub fn on_unbalanceds(fees_then_tips: &Vec<Balance>) -> (r: Option<FeeSplit>)
        ensures
            r == spec_split(fees_then_tips@),
    {
        if fees_then_tips.len() == 0 {
            return None;
        }
        let split = ration(fees_then_tips[0], TREASURY_PARTS, AUTHOR_PARTS);
        if fees_then_tips.len() > 1 {
            let tips = ration(fees_then_tips[1], TREASURY_PARTS, AUTHOR_PARTS);
            Some(FeeSplit { treasury: merge(split.0, tips.0), author: merge(split.1, tips.1) })
        } else {
            proof {
                assert(spec_treasury_share(0) == 0);
            }
            Some(FeeSplit { treasury: split.0, author: split.1 })
        }
    }
}

/// Nothing is created or lost: where the fees and tips together fit in a
/// balance, the treasury's and the author's parts add up to them exactly.
pub proof fn lemma_split_conserves(fees_then_tips: Seq<Balance>)
    requires
        fees_then_tips.len() > 0,
        fees_then_tips.len() > 1 ==> fees_then_tips[0] + fees_then_tips[1] <= u128::MAX,
    ensures
        ({
            let s = spec_split(fees_then_tips).unwrap();
            let tips: int = if fees_then_tips.len() > 1 {
                fees_then_tips[1] as int
            } else {
                0
            };
            s.treasury + s.author == fees_then_tips[0] + tips
        }),
{
    lemma_ration_first_bounded(fees_then_tips[0], TREASURY_PARTS, AUTHOR_PARTS);
    if fees_then_tips.len() > 1 {
        lemma_ration_first_bounded(fees_then_tips[1], TREASURY_PARTS, AUTHOR_PARTS);
    } else {
        lemma_ration_first_bounded(0, TREASURY_PARTS, AUTHOR_PARTS);
    }
}

/// Where the amount times 80 fits in a balance, the treasury gets exactly
/// `amount * 80 / 100` of it, rounded down, and the author the rest, which is
/// at least a fifth of the amount.
pub proof fn lemma_shares_are_eighty_twenty(amount: u128)
    requires
        amount * 80 <= u128::MAX,
    ensures
        spec_treasury_share(amount as int) == amount * 80 / 100,
        spec_author_share(amount as int) * 5 >= amount,
        spec_treasury_share(amount as int) <= 4 * spec_author_share(amount as int),
{
    lemma_ration_is_proportional(amount, TREASURY_PARTS, AUTHOR_PARTS);
}

/// The first share of a ration, written out: the amount times `first`
/// (held at `u128::MAX`) over `first + second` (held at `u32::MAX`), and
/// never more than the amount; where the product fits, it is the product
/// over the sum rounded down.
pub proof fn lemma_ration_first_value(amount: u128, first: u32, second: u32)
    requires
        first > 0 || second > 0,
    ensures
        ({
            let total: int = if first + second > u32::MAX {
                u32::MAX as int
            } else {
                first + second
            };
            let prod: int = if amount * first > u128::MAX {
                u128::MAX as int
            } else {
                amount * first
            };
            spec_ration_first(amount as int, first as int, second as int) == if prod / total
                < amount {
                prod / total
            } else {
                amount as int
            }
        }),
        first + second <= u32::MAX && amount * first <= u128::MAX ==> spec_ration_first(
            amount as int,
            first as int,
            second as int,
        ) == amount * first / (first + second),
{
    if first + second <= u32::MAX && amount * first <= u128::MAX {
        lemma_ration_is_proportional(amount, first, second);
    }
}

/// No fees, nothing split. A fee `f` with no tip: the treasury gets `f * 80` (held at `u128::MAX`)
/// over 100, which is `f * 80 / 100` rounded down where `f * 80` fits, and the
/// author the rest of `f`.
pub proof fn lemma_fees_only_split(f: Balance)
    ensures
        spec_split(Seq::<Balance>::empty()) is None,
        spec_split(seq![f]) is Some,
        spec_split(seq![f]).unwrap().treasury == (if f * 80 > u128::MAX {
            u128::MAX as int
        } else {
            f * 80
        }) / 100,
        spec_split(seq![f]).unwrap().treasury + spec_split(seq![f]).unwrap().author == f,
        f * 80 <= u128::MAX ==> spec_split(seq![f]).unwrap().treasury == f * 80 / 100,
        f * 80 <= u128::MAX ==> spec_split(seq![f]).unwrap().author == f - f * 80 / 100,
{
    lemma_ration_first_value(f, 80, 20);
    lemma_ration_first_value(0, 80, 20);
    lemma_ration_first_bounded(f, 80, 20);
    let prod: int = if f * 80 > u128::MAX {
        u128::MAX as int
    } else {
        f * 80
    };
    assert(prod / 100 <= f) by (nonlinear_arith)
        requires
            prod <= f * 80,
            prod >= 0,
            f >= 0,
    ;
    assert(seq![f][0] == f);
}

/// A fee `f` and a tip `t`: the treasury gets `f * 80 / 100` plus
/// `t * 80 / 100` (each product held at `u128::MAX`, the sum held at
/// `u128::MAX`), and the author `f - f * 80 / 100` plus `t - t * 80 / 100`
/// (the sum held at `u128::MAX`).
pub proof fn lemma_fees_and_tips_split(f: Balance, t: Balance)
    ensures
        ({
            let sf: int = (if f * 80 > u128::MAX {
                u128::MAX as int
            } else {
                f * 80
            }) / 100;
            let st: int = (if t * 80 > u128::MAX {
                u128::MAX as int
            } else {
                t * 80
            }) / 100;
            let s = spec_split(seq![f, t]);
            &&& s is Some
            &&& s.unwrap().treasury == (if sf + st > u128::MAX {
                u128::MAX as int
            } else {
                sf + st
            })
            &&& s.unwrap().author == (if (f - sf) + (t - st) > u128::MAX {
                u128::MAX as int
            } else {
                (f - sf) + (t - st)
            })
        }),
{
    lemma_ration_first_value(f, 80, 20);
    lemma_ration_first_value(t, 80, 20);
    let pf: int = if f * 80 > u128::MAX {
        u128::MAX as int
    } else {
        f * 80
    };
    let pt: int = if t * 80 > u128::MAX {
        u128::MAX as int
    } else {
        t * 80
    };
    assert(pf / 100 <= f) by (nonlinear_arith)
        requires
            pf <= f * 80,
            pf >= 0,
            f >= 0,
    ;
    assert(pt / 100 <= t) by (nonlinear_arith)
        requires
            pt <= t * 80,
            pt >= 0,
            t >= 0,
    ;
    assert(seq![f, t][0] == f && seq![f, t][1] == t);
}

/// Only the first two items count: fees and tips. Anything after them is ignored.
pub proof fn lemma_only_fees_and_tips_count(fees_then_tips: Seq<Balance>, rest: Seq<Balance>)
    requires
        fees_then_tips.len() >= 2,
    ensures
        spec_split(fees_then_tips + rest) == spec_split(fees_then_tips),
{
    assert((fees_then_tips + rest)[0] == fees_then_tips[0]);
    assert((fees_then_tips + rest)[1] == fees_then_tips[1]);
}

} // verus!
