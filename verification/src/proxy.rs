//! Proxy kinds and the calls that each kind lets a proxy dispatch.
use vstd::prelude::*;

verus! {

/// Which of its own calls the `indices` pallet is asked to dispatch.
#[derive(Clone, Copy, Debug, PartialEq, Eq, Structural)]
pub enum IndicesCall {
    /// `transfer`: hands an account index to another account.
    Transfer,
    /// Any other call of the pallet.
    Other,
}

/// Which of its own calls the `vesting` pallet is asked to dispatch.
#[derive(Clone, Copy, Debug, PartialEq, Eq, Structural)]
pub enum VestingCall {
    /// `vested_transfer`: moves funds under a vesting schedule.
    VestedTransfer,
    /// Any other call of the pallet.
    Other,
}

/// A dispatchable call of the runtime, told apart by the pallet it goes to
/// (and, where the proxy filter looks deeper, by the call inside the pallet).
#[derive(Clone, Copy, Debug, PartialEq, Eq, Structural)]
pub enum Call {
    System,
    Utility,
    Timestamp,
    Authorship,
    Indices(IndicesCall),
    Balances,
    Staking,
    Session,
    Democracy,
    Council,
    Elections,
    FinalityTracker,
    Grandpa,
    Treasury,
    Sudo,
    ImOnline,
    AuthorityDiscovery,
    Offences,
    RandomnessCollectiveFlip,
    Identity,
    Scheduler,
    Recovery,
    Vesting(VestingCall),
    Ethereum,
    EVM,
    Proxy,
    Multisig,
    Signaling,
    Voting,
    TreasuryReward,
}

/// The kinds of proxying allowed.
#[derive(Clone, Copy, Debug, PartialEq, Eq, Structural, PartialOrd, Ord, Hash)]
pub enum ProxyType {
    Any,
    NonTransfer,
    Governance,
    Staking,
}

/// The calls that move balances: every call of `balances`, vesting's
/// `vested_transfer` and indices' `transfer`.
pub open spec fn is_transfer(c: Call) -> bool {
    ||| c is Balances
    ||| c == Call::Vesting(VestingCall::VestedTransfer)
    ||| c == Call::Indices(IndicesCall::Transfer)
}

/// The calls of the governance pallets: democracy, council, elections, treasury.
pub open spec fn is_governance(c: Call) -> bool {
    ||| c is Democracy
    ||| c is Council
    ||| c is Elections
    ||| c is Treasury
}

/// Whether a proxy of kind `p` may dispatch `c`.
pub open spec fn spec_allows(p: ProxyType, c: Call) -> bool {
    match p {
        ProxyType::Any => true,
        ProxyType::NonTransfer => !is_transfer(c),
        ProxyType::Governance => is_governance(c),
        ProxyType::Staking => c is Staking,
    }
}

/// Whether kind `p` is declared to cover kind `o`: equal kinds, `Any` over
/// every kind, and `NonTransfer` over every kind but `Any`.
pub open spec fn spec_covers(p: ProxyType, o: ProxyType) -> bool {
    ||| p == o
    ||| p is Any
    ||| (p is NonTransfer && !(o is Any))
}

impl Default for ProxyType {
    /// The default proxy kind is `Any`.
    fn default() -> (r: ProxyType)
        ensures
            r == ProxyType::Any,
    {
        ProxyType::Any
    }
}

impl ProxyType {
    /// Whether a proxy of this kind may dispatch `c`.
    pub fn filter(&self, c: &Call) -> (r: bool)
        ensures
            r == spec_allows(*self, *c),
    {
        match self {
            ProxyType::Any => true,
            ProxyType::NonTransfer => !matches!(
                c,
                Call::Balances | Call::Vesting(VestingCall::VestedTransfer) | Call::Indices(
                    IndicesCall::Transfer,
                )
            ),
            ProxyType::Governance => matches!(
                c,
                Call::Democracy | Call::Council | Call::Elections | Call::Treasury
            ),
            ProxyType::Staking => matches!(c, Call::Staking),
        }
    }

    /// Whether this kind lets through at least everything that `o` lets through.
    pub fn is_superset(&self, o: &ProxyType) -> (r: bool)
        ensures
            r == spec_covers(*self, *o),
    {
        match (self, o) {
            (x, y) if *x == *y => true,
            (ProxyType::Any, _) => true,
            (_, ProxyType::Any) => false,
            (ProxyType::NonTransfer, _) => true,
            _ => false,
        }
    }
}

/// A kind that covers another lets through every call that the other lets through.
pub proof fn lemma_superset_allows_more(p: ProxyType, o: ProxyType, c: Call)
    requires
        spec_covers(p, o),
        spec_allows(o, c),
    ensures
        spec_allows(p, c),
{
}

/// Where two kinds differ in what they let through, the one that covers the
/// other lets through strictly more: covering never holds the wrong way round.
pub proof fn lemma_covers_is_sound(p: ProxyType, o: ProxyType)
    requires
        spec_covers(p, o),
    ensures
        forall|c: Call| spec_allows(o, c) ==> spec_allows(p, c),
{
}

/// Covering is exactly inclusion of what is let through: a kind covers
/// another if and only if it lets through every call that the other lets through.
pub proof fn lemma_covers_is_inclusion(p: ProxyType, o: ProxyType)
    ensures
        spec_covers(p, o) <==> (forall|c: Call| spec_allows(o, c) ==> spec_allows(p, c)),
{
    if !spec_covers(p, o) {
        let witness = match p {
            ProxyType::NonTransfer => Call::Balances,
            ProxyType::Governance => Call::Staking,
            _ => Call::Democracy,
        };
        assert(spec_allows(o, witness) && !spec_allows(p, witness));
    }
}

/// Every kind covers itself.
pub proof fn lemma_covers_reflexive(p: ProxyType)
    ensures
        spec_covers(p, p),
{
}

/// Covering is transitive.
pub proof fn lemma_covers_transitive(p: ProxyType, q: ProxyType, r: ProxyType)
    requires
        spec_covers(p, q),
        spec_covers(q, r),
    ensures
        spec_covers(p, r),
{
}

/// Two kinds that cover each other are the same kind.
pub proof fn lemma_covers_antisymmetric(p: ProxyType, q: ProxyType)
    requires
        spec_covers(p, q),
        spec_covers(q, p),
    ensures
        p == q,
{
}

/// `Any` covers every kind and lets every call through; only `Any` covers `Any`.
pub proof fn lemma_any_is_top(p: ProxyType, c: Call)
    ensures
        spec_covers(ProxyType::Any, p),
        spec_allows(ProxyType::Any, c),
        spec_covers(p, ProxyType::Any) <==> p == ProxyType::Any,
{
}

/// A `NonTransfer` proxy never moves balances, and lets every other call through.
pub proof fn lemma_non_transfer_blocks_exactly_transfers(c: Call)
    ensures
        spec_allows(ProxyType::NonTransfer, c) <==> !is_transfer(c),
        c is Balances ==> !spec_allows(ProxyType::NonTransfer, c),
{
}

/// What each kind lets through, call by call: `Any` everything; `NonTransfer`
/// every call but those of `balances`, vesting's `vested_transfer` and
/// indices' `transfer`; `Governance` the calls of democracy, council,
/// elections and treasury; `Staking` the calls of staking.
pub proof fn lemma_allows_table(c: Call)
    ensures
        spec_allows(ProxyType::Any, c),
        spec_allows(ProxyType::NonTransfer, c) <==> !(c == Call::Balances || c == Call::Vesting(
            VestingCall::VestedTransfer,
        ) || c == Call::Indices(IndicesCall::Transfer)),
        spec_allows(ProxyType::Governance, c) <==> (c == Call::Democracy || c == Call::Council
            || c == Call::Elections || c == Call::Treasury),
        spec_allows(ProxyType::Staking, c) <==> c == Call::Staking,
{
}

/// A `NonTransfer` proxy may dispatch utility calls (such as a batch), every
/// other pallet's calls, vesting's calls but `vested_transfer` and indices'
/// calls but `transfer`.
pub proof fn lemma_non_transfer_allows_non_transfers()
    ensures
        spec_allows(ProxyType::NonTransfer, Call::Utility),
        spec_allows(ProxyType::NonTransfer, Call::System),
        spec_allows(ProxyType::NonTransfer, Call::Staking),
        spec_allows(ProxyType::NonTransfer, Call::Democracy),
        spec_allows(ProxyType::NonTransfer, Call::Proxy),
        spec_allows(ProxyType::NonTransfer, Call::Multisig),
        spec_allows(ProxyType::NonTransfer, Call::Vesting(VestingCall::Other)),
        spec_allows(ProxyType::NonTransfer, Call::Indices(IndicesCall::Other)),
        !spec_allows(ProxyType::NonTransfer, Call::Balances),
        !spec_allows(ProxyType::NonTransfer, Call::Vesting(VestingCall::VestedTransfer)),
        !spec_allows(ProxyType::NonTransfer, Call::Indices(IndicesCall::Transfer)),
{
}

/// Which kind covers which: each kind itself, `Any` every kind, `NonTransfer`
/// every kind but `Any`; nothing else.
pub proof fn lemma_covers_table(p: ProxyType, o: ProxyType)
    ensures
        spec_covers(p, o) <==> (p == o || p == ProxyType::Any || (p == ProxyType::NonTransfer
            && o != ProxyType::Any)),
        spec_covers(ProxyType::NonTransfer, ProxyType::Governance),
        spec_covers(ProxyType::NonTransfer, ProxyType::Staking),
        !spec_covers(ProxyType::Governance, ProxyType::Staking),
        !spec_covers(ProxyType::Staking, ProxyType::Governance),
        !spec_covers(ProxyType::NonTransfer, ProxyType::Any),
{
}

/// Kinds other than `Any` and `NonTransfer` never move balances.
pub proof fn lemma_narrow_kinds_never_transfer(p: ProxyType, c: Call)
    requires
        p != ProxyType::Any,
        spec_allows(p, c),
    ensures
        !is_transfer(c),
{
}

} // verus!
