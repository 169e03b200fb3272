//! Block time and the durations, counted in blocks, that the runtime configures.
use vstd::prelude::*;

use crate::transaction::BlockNumber;

verus! {

/// Milliseconds between two blocks.
pub const MILLISECS_PER_BLOCK: u64 = 6000;

/// The duration of an authoring slot: one block.
pub const SLOT_DURATION: u64 = MILLISECS_PER_BLOCK;

/// Minimum period between two timestamps: half a slot.
pub const MINIMUM_PERIOD: u64 = SLOT_DURATION / 2;

/// Blocks in a minute: a minute over the block time (see `lemma_block_time`).
pub const MINUTES: BlockNumber = 10;

/// Blocks in an hour.
pub const HOURS: BlockNumber = MINUTES * 60;

/// Blocks in a day.
pub const DAYS: BlockNumber = HOURS * 24;

/// Length of a session: one hour.
pub const SESSION_PERIOD: BlockNumber = 1 * HOURS;

/// Sessions in a staking era: 1 hour sessions, 6 hour eras.
pub const SESSIONS_PER_ERA: u32 = 6;

/// Eras that staked funds stay bonded after unbonding.
pub const BONDING_DURATION: u32 = 2 * 28;

/// Eras that a slash is deferred by.
pub const SLASH_DEFER_DURATION: u32 = 28;

/// Blocks before a public proposal is tabled as a referendum.
pub const LAUNCH_PERIOD: BlockNumber = 7 * 24 * 60 * MINUTES;

/// Blocks that a referendum is open for voting.
pub const VOTING_PERIOD: BlockNumber = 7 * 24 * 60 * MINUTES;

/// Blocks that a fast-tracked referendum is open for voting.
pub const FAST_TRACK_VOTING_PERIOD: BlockNumber = 3 * 24 * 60 * MINUTES;

/// Blocks between the approval of a referendum and its enactment.
pub const ENACTMENT_PERIOD: BlockNumber = 8 * 24 * 60 * MINUTES;

/// Blocks that a vetoed proposal may not be re-submitted for.
pub const COOLOFF_PERIOD: BlockNumber = 7 * 24 * 60 * MINUTES;

/// Blocks that a council motion stays open.
pub const COUNCIL_MOTION_DURATION: BlockNumber = 14 * DAYS;

/// Blocks between two council elections.
pub const TERM_DURATION: BlockNumber = 28 * DAYS;

/// Blocks between two treasury spends.
pub const SPEND_PERIOD: BlockNumber = 14 * DAYS;

/// Blocks that a tip stays open after the threshold of tippers is reached.
pub const TIP_COUNTDOWN: BlockNumber = 1 * DAYS;

/// Council members elected by the elections pallet.
pub const DESIRED_MEMBERS: u32 = 13;

/// Runners-up kept by the elections pallet.
pub const DESIRED_RUNNERS_UP: u32 = 7;

/// The most members the collective pallet admits (its `MAX_MEMBERS`).
pub const MAX_COUNCIL_MEMBERS: u32 = 100;

/// Chain identifier of the EVM.
pub const CHAIN_ID: u64 = 48;

/// The block-time arithmetic: 10 blocks a minute, 600 an hour, 14 400 a day,
/// each of them exactly as long in milliseconds as the unit it counts.
pub proof fn lemma_block_time()
    ensures
        MINUTES == 60_000u64 / MILLISECS_PER_BLOCK,
        HOURS == 600,
        DAYS == 14_400,
        MINUTES * MILLISECS_PER_BLOCK == 60_000,
        HOURS * MILLISECS_PER_BLOCK == 3_600_000,
        DAYS * MILLISECS_PER_BLOCK == 86_400_000,
        MINIMUM_PERIOD * 2 == SLOT_DURATION,
{
}

/// The staking durations that the configuration promises: a 6 hour era, a
/// 14 day bonding duration and a 7 day slash deferral.
pub proof fn lemma_staking_durations()
    ensures
        SESSIONS_PER_ERA * SESSION_PERIOD == 6 * HOURS,
        BONDING_DURATION * SESSIONS_PER_ERA * SESSION_PERIOD == 14 * DAYS,
        SLASH_DEFER_DURATION * SESSIONS_PER_ERA * SESSION_PERIOD == 7 * DAYS,
{
}

/// The governance periods in days: a week to launch, to vote and to cool off,
/// three days for a fast-tracked vote, eight days to enactment.
pub proof fn lemma_governance_durations()
    ensures
        LAUNCH_PERIOD == 7 * DAYS,
        VOTING_PERIOD == 7 * DAYS,
        COOLOFF_PERIOD == 7 * DAYS,
        FAST_TRACK_VOTING_PERIOD == 3 * DAYS,
        ENACTMENT_PERIOD == 8 * DAYS,
{
}

/// No more council members are elected than the collective pallet admits.
pub proof fn lemma_council_fits()
    ensures
        DESIRED_MEMBERS <= MAX_COUNCIL_MEMBERS,
{
}

} // verus!
