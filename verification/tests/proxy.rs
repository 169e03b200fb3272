use banana_runtime::proxy::{Call, IndicesCall, ProxyType, VestingCall};

const KINDS: [ProxyType; 4] = [
    ProxyType::Any,
    ProxyType::NonTransfer,
    ProxyType::Governance,
    ProxyType::Staking,
];

fn all_calls() -> Vec<Call> {
    vec![
        Call::System,
        Call::Utility,
        Call::Timestamp,
        Call::Authorship,
        Call::Indices(IndicesCall::Transfer),
        Call::Indices(IndicesCall::Other),
        Call::Balances,
        Call::Staking,
        Call::Session,
        Call::Democracy,
        Call::Council,
        Call::Elections,
        Call::FinalityTracker,
        Call::Grandpa,
        Call::Treasury,
        Call::Sudo,
        Call::ImOnline,
        Call::AuthorityDiscovery,
        Call::Offences,
        Call::RandomnessCollectiveFlip,
        Call::Identity,
        Call::Scheduler,
        Call::Recovery,
        Call::Vesting(VestingCall::VestedTransfer),
        Call::Vesting(VestingCall::Other),
        Call::Ethereum,
        Call::EVM,
        Call::Proxy,
        Call::Multisig,
        Call::Signaling,
        Call::Voting,
        Call::TreasuryReward,
    ]
}

#[test]
fn default_proxy_type_is_any() {
    assert_eq!(ProxyType::default(), ProxyType::Any);
}

#[test]
fn any_lets_every_call_through() {
    for c in all_calls() {
        assert!(ProxyType::Any.filter(&c));
    }
}

#[test]
fn non_transfer_blocks_transfers_only() {
    let p = ProxyType::NonTransfer;
    assert!(!p.filter(&Call::Balances));
    assert!(!p.filter(&Call::Vesting(VestingCall::VestedTransfer)));
    assert!(!p.filter(&Call::Indices(IndicesCall::Transfer)));
    assert!(p.filter(&Call::Vesting(VestingCall::Other)));
    assert!(p.filter(&Call::Indices(IndicesCall::Other)));
    assert!(p.filter(&Call::Staking));
    assert!(p.filter(&Call::Democracy));
    assert!(p.filter(&Call::Proxy));
    assert!(p.filter(&Call::EVM));
}

#[test]
fn governance_lets_governance_pallets_through() {
    let p = ProxyType::Governance;
    for c in all_calls() {
        let expected = matches!(
            c,
            Call::Democracy | Call::Council | Call::Elections | Call::Treasury
        );
        assert_eq!(p.filter(&c), expected);
    }
}

#[test]
fn staking_lets_staking_through() {
    let p = ProxyType::Staking;
    for c in all_calls() {
        assert_eq!(p.filter(&c), c == Call::Staking);
    }
}

#[test]
fn superset_table() {
    let (any, non_transfer, governance, staking) = (
        ProxyType::Any,
        ProxyType::NonTransfer,
        ProxyType::Governance,
        ProxyType::Staking,
    );
    assert!(any.is_superset(&any));
    assert!(any.is_superset(&non_transfer));
    assert!(any.is_superset(&governance));
    assert!(any.is_superset(&staking));
    assert!(!non_transfer.is_superset(&any));
    assert!(non_transfer.is_superset(&non_transfer));
    assert!(non_transfer.is_superset(&governance));
    assert!(non_transfer.is_superset(&staking));
    assert!(!governance.is_superset(&any));
    assert!(!governance.is_superset(&non_transfer));
    assert!(governance.is_superset(&governance));
    assert!(!governance.is_superset(&staking));
    assert!(!staking.is_superset(&any));
    assert!(!staking.is_superset(&non_transfer));
    assert!(!staking.is_superset(&governance));
    assert!(staking.is_superset(&staking));
}

#[test]
fn superset_means_lets_more_through() {
    for p in KINDS {
        for o in KINDS {
            let inclusion = all_calls().iter().all(|c| !o.filter(c) || p.filter(c));
            assert_eq!(p.is_superset(&o), inclusion);
        }
    }
}
