//! The runtime upgrade that migrates balances, staking and accounts in turn.
use vstd::prelude::*;

use crate::weights::Weight;

verus! {

/// Custom runtime upgrade: the balances migration runs before the staking and
/// the account migrations.
pub struct Upgrade;

impl Upgrade {
    /// The weight of the upgrade: the weights of the balances, staking and
    /// accounts migrations added up.
    pub fn on_runtime_upgrade(balances: Weight, staking: Weight, accounts: Weight) -> (r: Weight)
        requires
            balances + staking + accounts <= u64::MAX,
        ensures
            r == balances + staking + accounts,
    {
        let mut weight: Weight = 0;
        weight += balances;
        weight += staking;
        weight += accounts;
        weight
    }
}

} // verus!
