use banana_runtime::weights::{
    available_block_ratio, disabled_validators_threshold, maximum_extrinsic_weight,
    maximum_scheduler_weight, min_solution_score_bump, offences_weight_soft_limit,
    MAXIMUM_BLOCK_WEIGHT, WEIGHT_PER_SECOND,
};
use sp_arithmetic::traits::Saturating;
use sp_arithmetic::Perbill;

#[test]
fn block_weight_is_two_seconds() {
    assert_eq!(MAXIMUM_BLOCK_WEIGHT, 2 * WEIGHT_PER_SECOND);
}

#[test]
fn derived_weights() {
    assert_eq!(available_block_ratio(), 750_000_000);
    assert_eq!(maximum_extrinsic_weight(), 1_300_000_000_000);
    assert_eq!(maximum_scheduler_weight(), 1_600_000_000_000);
    assert_eq!(offences_weight_soft_limit(), 1_200_000_000_000);
    assert_eq!(disabled_validators_threshold(), 330_000_000);
    assert_eq!(min_solution_score_bump(), 500_000);
}

#[test]
fn derived_weights_agree_with_perbill() {
    let ratio = Perbill::from_percent(75).saturating_sub(Perbill::from_percent(10));
    assert_eq!(maximum_extrinsic_weight(), ratio * MAXIMUM_BLOCK_WEIGHT);
    assert_eq!(maximum_scheduler_weight(), Perbill::from_percent(80) * MAXIMUM_BLOCK_WEIGHT);
    assert_eq!(offences_weight_soft_limit(), Perbill::from_percent(60) * MAXIMUM_BLOCK_WEIGHT);
    assert_eq!(
        min_solution_score_bump(),
        Perbill::from_rational_approximation(5u32, 10_000).deconstruct()
    );
}
