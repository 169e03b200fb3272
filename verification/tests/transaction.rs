use banana_runtime::transaction::{
    create_transaction_params, signing_period, transaction_era, MortalEra, BLOCK_HASH_COUNT,
};

#[test]
fn signing_period_is_largest_power_of_two_within_hash_count() {
    assert_eq!(signing_period(), 2048);
    assert!(signing_period() <= BLOCK_HASH_COUNT as u64);
    assert!(2 * signing_period() > BLOCK_HASH_COUNT as u64);
}

#[test]
fn era_at_genesis() {
    // block 0 saturates to 0, as does block 1.
    assert_eq!(transaction_era(0), MortalEra { period: 2048, phase: 0 });
    assert_eq!(transaction_era(1), MortalEra { period: 2048, phase: 0 });
}

#[test]
fn era_phase_is_previous_block_modulo_period() {
    assert_eq!(transaction_era(5), MortalEra { period: 2048, phase: 4 });
    assert_eq!(transaction_era(2049), MortalEra { period: 2048, phase: 0 });
    assert_eq!(transaction_era(5000), MortalEra { period: 2048, phase: 903 });
    assert_eq!(transaction_era(u32::MAX), MortalEra { period: 2048, phase: ((u32::MAX - 1) % 2048) as u64 });
}

#[test]
fn era_agrees_with_sp_runtime() {
    for b in [0u32, 1, 2, 100, 2048, 2049, 123_456, u32::MAX] {
        let e = transaction_era(b);
        let expected = sp_runtime::generic::Era::mortal(2048, (b as u64).saturating_sub(1));
        assert_eq!(sp_runtime::generic::Era::Mortal(e.period, e.phase), expected);
    }
}

#[test]
fn transaction_params_carry_nonce_and_no_tip() {
    let p = create_transaction_params(5000, 42);
    assert_eq!(p.era, MortalEra { period: 2048, phase: 903 });
    assert_eq!(p.nonce, 42);
    assert_eq!(p.tip, 0);
}
