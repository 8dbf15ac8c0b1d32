use ledger_contracts::fees::split;

#[test]
fn split_at_two_and_a_half_percent() {
    assert_eq!(split(1000, 250), (25, 975));
}

#[test]
fn split_rounds_the_fee_down_to_the_sellers_benefit() {
    // 999 * 250 / 10000 = 24.975, so the fee is 24 and the seller gets 975.
    assert_eq!(split(999, 250), (24, 975));
    assert_eq!(split(1, 9999), (0, 1));
}

#[test]
fn split_at_zero_rate_charges_nothing() {
    assert_eq!(split(1000, 0), (0, 1000));
}

#[test]
fn split_at_full_rate_leaves_the_seller_nothing() {
    assert_eq!(split(999, 10000), (999, 0));
}

#[test]
fn split_adds_back_up_at_the_largest_price() {
    let (fee, proceeds) = split(i128::MAX, 250);
    assert_eq!(fee + proceeds, i128::MAX);
    assert_eq!(fee, i128::MAX / 10000 * 250 + i128::MAX % 10000 * 250 / 10000);
    assert!(fee >= 0 && proceeds > 0);
}
