use mevlog::utils::{measure_end, measure_start, GWEI_U128, WEI_PER_ETH_U128};

#[test]
fn measure_keeps_label() {
    let start = measure_start("load blocks");
    assert_eq!(start.0, "load blocks");
    let elapsed = measure_end(start);
    assert!(elapsed.as_secs() < 20);
}

#[test]
fn unit_scales() {
    assert_eq!(GWEI_U128, 10u128.pow(9));
    assert_eq!(WEI_PER_ETH_U128, 10u128.pow(18));
}
