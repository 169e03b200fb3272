use banana_runtime::evm::{EthereumFindAuthor, FixedGasPrice};
use banana_runtime::time::{
    BONDING_DURATION, DAYS, HOURS, LAUNCH_PERIOD, MILLISECS_PER_BLOCK, MINIMUM_PERIOD, MINUTES,
    SESSIONS_PER_ERA, SESSION_PERIOD, SLASH_DEFER_DURATION, SLOT_DURATION,
};
use banana_runtime::upgrade::Upgrade;

#[test]
fn gas_price_is_one() {
    assert_eq!(FixedGasPrice::min_gas_price(), 1);
}

#[test]
fn author_address_is_bytes_four_to_twenty_four() {
    let keys: Vec<Vec<u8>> = (0..3u8).map(|k| (0..32u8).map(|b| b + 32 * k).collect()).collect();
    let a = EthereumFindAuthor::find_author(Some(1), &keys).unwrap();
    assert_eq!(a, (36u8..56).collect::<Vec<u8>>());
    assert_eq!(a.len(), 20);
    assert_eq!(EthereumFindAuthor::find_author(None, &keys), None);
}

#[test]
fn upgrade_weight_adds_up() {
    assert_eq!(Upgrade::on_runtime_upgrade(1, 20, 300), 321);
    assert_eq!(Upgrade::on_runtime_upgrade(0, 0, 0), 0);
}

#[test]
fn block_time_constants() {
    assert_eq!(MINUTES as u64, 60_000 / MILLISECS_PER_BLOCK);
    assert_eq!(HOURS, 600);
    assert_eq!(DAYS, 14_400);
    assert_eq!(SLOT_DURATION, 6000);
    assert_eq!(MINIMUM_PERIOD, 3000);
    assert_eq!(LAUNCH_PERIOD, 7 * DAYS);
}

#[test]
fn staking_durations() {
    assert_eq!(SESSIONS_PER_ERA * SESSION_PERIOD, 6 * HOURS);
    assert_eq!(BONDING_DURATION * SESSIONS_PER_ERA * SESSION_PERIOD, 14 * DAYS);
    assert_eq!(SLASH_DEFER_DURATION * SESSIONS_PER_ERA * SESSION_PERIOD, 7 * DAYS);
}
