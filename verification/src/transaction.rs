//! The longevity of the transactions that the runtime signs for itself.
use vstd::prelude::*;

use sp_runtime::generic::Era;

use crate::fees::Balance;

verus! {

/// Block number type of the chain.
pub type BlockNumber = u32;

/// Index of a transaction in the chain: an account's nonce.
pub type Index = u32;

/// Priority of a transaction in the pool.
pub type TransactionPriority = u64;

/// Priority of the unsigned heartbeats of validators that are online: the highest.
pub const IM_ONLINE_UNSIGNED_PRIORITY: TransactionPriority = u64::MAX;

/// Priority of unsigned election solutions from the staking pallet: half the highest.
pub const STAKING_UNSIGNED_PRIORITY: TransactionPriority = u64::MAX / 2;

/// Heartbeats of online validators are prioritized over election solutions.
pub proof fn lemma_heartbeats_come_first()
    ensures
        STAKING_UNSIGNED_PRIORITY < IM_ONLINE_UNSIGNED_PRIORITY,
{
}

/// Maximum number of block number to block hash mappings to keep (oldest pruned first).
pub const BLOCK_HASH_COUNT: BlockNumber = 2400;

/// The smallest power of two that is at least `n` (1 for 0 and 1).
pub open spec fn next_power_of_two(n: nat) -> nat
    decreases n,
{
    if n <= 1 {
        1
    } else {
        2 * next_power_of_two(((n + 1) / 2) as nat)
    }
}

/// Whether `p` is a power of two.
pub open spec fn is_power_of_two(p: nat) -> bool
    decreases p,
{
    if p == 1 {
        true
    } else if p < 2 || p % 2 != 0 {
        false
    } else {
        is_power_of_two(p / 2)
    }
}

/// The period and phase of a mortal era: a transaction is valid for `period`
/// blocks, counted from the last block whose number is `phase` modulo `period`.
#[derive(Clone, Copy, Debug, PartialEq, Eq, Structural)]
pub struct MortalEra {
    pub period: u64,
    pub phase: u64,
}

/// The period that a mortal era is given for a requested `period`: the next
/// power of two (65536 where there is none in `u64`), held between 4 and 65536.
pub open spec fn spec_era_period(period: u64) -> nat {
    let p: nat = if next_power_of_two(period as nat) <= u64::MAX {
        next_power_of_two(period as nat)
    } else {
        65536
    };
    if p < 4 {
        4
    } else if p > 65536 {
        65536
    } else {
        p
    }
}

/// The mortal era for a requested `period` starting at block `current`: the
/// phase is `current` modulo the period, rounded down to a multiple of
/// `period / 4096` where that is above 1.
pub open spec fn spec_mortal(period: u64, current: u64) -> MortalEra {
    let p = spec_era_period(period);
    let phase: nat = (current as nat) % p;
    let q: nat = if p / 4096 > 1 {
        p / 4096
    } else {
        1
    };
    MortalEra { period: p as u64, phase: (phase / q * q) as u64 }
}

/// `u32::checked_next_power_of_two` of std: the smallest power of two at
/// least `n`, or `None` where it is above `u32::MAX`.
#[verifier::external_body]
fn u32_checked_next_power_of_two(n: u32) -> (r: Option<u32>)
    ensures
        next_power_of_two(n as nat) <= u32::MAX ==> r == Some(next_power_of_two(n as nat) as u32),
        next_power_of_two(n as nat) > u32::MAX ==> r is None,
{
    n.checked_next_power_of_two()
}

/// `sp_runtime::generic::Era::mortal`: builds a mortal era from a requested
/// period and the current block. Its source computes the period as the next
/// power of two of the request (65536 where there is none), clamped to
/// 4..=65536, and the phase as `current % period`, rounded down to a multiple
/// of `max(period >> 12, 1)`; it never builds an immortal era.
#[verifier::external_body]
fn era_mortal(period: u64, current: u64) -> (r: Option<MortalEra>)
    ensures
        r == Some(spec_mortal(period, current)),
{
    match Era::mortal(period, current) {
        Era::Mortal(period, phase) => Some(MortalEra { period, phase }),
        Era::Immortal => None,
    }
}

/// The period that the runtime asks for when it signs a transaction: the
/// biggest possible, half the next power of two of `BLOCK_HASH_COUNT`.
pub open spec fn spec_signing_period() -> nat {
    next_power_of_two(BLOCK_HASH_COUNT as nat) / 2
}

/// The period requested for transactions the runtime signs for itself: half
/// the next power of two of the block hash count (2 where there is none).
pub fn signing_period() -> (r: u64)
    ensures
        r == spec_signing_period(),
        r == 2048,
{
    proof {
        reveal_with_fuel(next_power_of_two, 13);
    }
    assert(next_power_of_two(2400) == 4096);
    let period = match u32_checked_next_power_of_two(BLOCK_HASH_COUNT) {
        Some(c) => c / 2,
        None => 2,
    };
    period as u64
}

/// The era of a transaction that the runtime signs at block `block_number`:
/// mortal, with the signing period, starting at the block before it (the
/// block number is one ahead of the block being built upon).
pub fn transaction_era(block_number: BlockNumber) -> (r: MortalEra)
    ensures
        r == spec_mortal(
            spec_signing_period() as u64,
            (if block_number > 0 {
                block_number - 1
            } else {
                0
            }) as u64,
        ),
{
    let period = signing_period();
    let current_block = (block_number as u64).saturating_sub(1);
    era_mortal(period, current_block).unwrap()
}

/// What the runtime puts, besides the call, into a transaction that it signs
/// for itself: the era, the signer's nonce and the tip.
#[derive(Clone, Copy, Debug, PartialEq, Eq, Structural)]
pub struct SigningParams {
    pub era: MortalEra,
    pub nonce: Index,
    pub tip: Balance,
}

/// The parameters of a transaction signed at block `block_number` with the
/// signer's `nonce`: the era of `transaction_era`, the nonce as given, and no tip.
pub fn create_transaction_params(block_number: BlockNumber, nonce: Index) -> (r: SigningParams)
    ensures
        r.era == spec_mortal(
            spec_signing_period() as u64,
            (if block_number > 0 {
                block_number - 1
            } else {
                0
            }) as u64,
        ),
        r.nonce == nonce,
        r.tip == 0,
{
    SigningParams { era: transaction_era(block_number), nonce, tip: 0 }
}

/// The era of every transaction the runtime signs: valid for 2048 blocks,
/// starting at the block before the current one modulo 2048.
pub proof fn lemma_transaction_era_shape(block_number: BlockNumber)
    ensures
        ({
            let current: int = if block_number > 0 {
                block_number - 1
            } else {
                0
            };
            let e = spec_mortal(spec_signing_period() as u64, current as u64);
            e.period == 2048 && e.phase == current % 2048
        }),
{
    reveal_with_fuel(next_power_of_two, 13);
    assert(next_power_of_two(2400) == 4096);
    assert(next_power_of_two(2048) == 2048);
}

/// The period the runtime asks for never outlives the block hashes it keeps,
/// and it is the largest power of two that does not: twice it would.
pub proof fn lemma_signing_period_fits_block_hash_count()
    ensures
        is_power_of_two(spec_signing_period()),
        spec_signing_period() <= BLOCK_HASH_COUNT,
        2 * spec_signing_period() > BLOCK_HASH_COUNT,
{
    reveal_with_fuel(next_power_of_two, 13);
    reveal_with_fuel(is_power_of_two, 13);
    assert(next_power_of_two(2400) == 4096);
}

/// The next power of two of `n` is a power of two, at least `n`, and below `2 * n` where `n > 0`.
pub proof fn lemma_next_power_of_two(n: nat)
    ensures
        is_power_of_two(next_power_of_two(n)),
        n <= next_power_of_two(n),
        n > 0 ==> next_power_of_two(n) < 2 * n,
    decreases n,
{
    if n > 1 {
        let h = ((n + 1) / 2) as nat;
        lemma_next_power_of_two(h);
        let p = next_power_of_two(h);
        assert((2 * p) / 2 == p);
        assert((2 * p) % 2 == 0);
    }
}

/// Every mortal era has a power-of-two period between 4 and 65536 and a phase
/// inside it; up to a period of 4096 the phase is exactly `current % period`.
pub proof fn lemma_mortal_era_is_well_formed(period: u64, current: u64)
    ensures
        ({
            let e = spec_mortal(period, current);
            &&& 4 <= e.period <= 65536
            &&& is_power_of_two(e.period as nat)
            &&& e.phase < e.period
            &&& e.period <= 4096 ==> e.phase == current % e.period
        }),
{
    lemma_next_power_of_two(period as nat);
    let n = next_power_of_two(period as nat);
    let p = spec_era_period(period);
    if n > u64::MAX {
        reveal_with_fuel(is_power_of_two, 17);
        assert(is_power_of_two(65536));
    } else if n < 4 {
        reveal_with_fuel(is_power_of_two, 3);
        assert(is_power_of_two(4));
    } else if n > 65536 {
        reveal_with_fuel(is_power_of_two, 17);
        assert(is_power_of_two(65536));
    }
    let phase: nat = (current as nat) % p;
    let q: nat = if p / 4096 > 1 {
        p / 4096
    } else {
        1
    };
    assert(phase / q * q <= phase) by (nonlinear_arith)
        requires
            q >= 1,
            phase >= 0,
    {
        vstd::arithmetic::div_mod::lemma_fundamental_div_mod(phase as int, q as int);
        vstd::arithmetic::div_mod::lemma_mod_bound(phase as int, q as int);
    }
}

} // verus!
