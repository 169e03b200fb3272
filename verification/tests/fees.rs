use banana_runtime::fees::{ration, DealWithFees, FeeSplit};

#[test]
fn ration_eighty_twenty() {
    assert_eq!(ration(100, 80, 20), (80, 20));
    assert_eq!(ration(7, 80, 20), (5, 2));
    assert_eq!(ration(0, 80, 20), (0, 0));
    assert_eq!(ration(1, 80, 20), (0, 1));
}

#[test]
fn ration_other_ratios() {
    assert_eq!(ration(10, 1, 0), (10, 0));
    assert_eq!(ration(10, 0, 1), (0, 10));
    assert_eq!(ration(10, 1, 2), (3, 7));
}

#[test]
fn ration_saturates_the_product() {
    // amount * 80 does not fit: the product is held at u128::MAX.
    let (a, b) = ration(u128::MAX, 80, 20);
    assert_eq!(a, u128::MAX / 100);
    assert_eq!(a + b, u128::MAX);
}

#[test]
fn ration_saturates_the_total() {
    // first + second does not fit in a u32: the total is held at u32::MAX.
    let (a, b) = ration(1000, u32::MAX, 1);
    assert_eq!(a, 1000);
    assert_eq!(b, 0);
}

#[test]
fn no_fees_nothing_split() {
    assert_eq!(DealWithFees::on_unbalanceds(&vec![]), None);
}

#[test]
fn fees_only() {
    assert_eq!(
        DealWithFees::on_unbalanceds(&vec![1000]),
        Some(FeeSplit { treasury: 800, author: 200 })
    );
}

#[test]
fn fees_and_tips() {
    assert_eq!(
        DealWithFees::on_unbalanceds(&vec![100, 10]),
        Some(FeeSplit { treasury: 88, author: 22 })
    );
    assert_eq!(
        DealWithFees::on_unbalanceds(&vec![7, 3]),
        Some(FeeSplit { treasury: 7, author: 3 })
    );
}

#[test]
fn later_items_ignored() {
    assert_eq!(
        DealWithFees::on_unbalanceds(&vec![100, 10, 5000, 7]),
        DealWithFees::on_unbalanceds(&vec![100, 10])
    );
}

#[test]
fn split_conserves_amounts() {
    for (fees, tips) in [(0u128, 0u128), (1, 1), (99, 1), (12345, 678), (1 << 100, 3)] {
        let s = DealWithFees::on_unbalanceds(&vec![fees, tips]).unwrap();
        assert_eq!(s.treasury + s.author, fees + tips);
        assert!(s.author * 5 >= fees + tips);
        assert!(s.treasury <= 4 * s.author);
    }
}

#[test]
fn huge_amounts_saturate() {
    let s = DealWithFees::on_unbalanceds(&vec![u128::MAX, u128::MAX]).unwrap();
    assert_eq!(s.treasury, (u128::MAX / 100) * 2);
    assert_eq!(s.author, u128::MAX);
}
