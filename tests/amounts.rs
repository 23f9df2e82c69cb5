use wallet_sync::{decimal_string, total_balance_zat, zec_string, PoolBalances};

fn pools(a: Option<u64>, b: Option<u64>, c: Option<u64>, d: Option<u64>) -> PoolBalances {
    PoolBalances {
        confirmed_orchard: a,
        unconfirmed_orchard: b,
        confirmed_sapling: c,
        unconfirmed_sapling: d,
    }
}

#[test]
fn absent_pools_count_as_zero() {
    let b = pools(None, Some(5000), Some(3000), None);
    let total = total_balance_zat(&b);
    assert_eq!(total, Some(8000));
    assert_eq!(zec_string(8000), "0.00008000");
    assert_eq!(8000u64 as f64 / 100_000_000.0, 0.00008);
    assert_eq!(zec_string(8000).parse::<f64>().unwrap(), 0.00008);
}

#[test]
fn all_pools_absent_is_zero() {
    assert_eq!(total_balance_zat(&pools(None, None, None, None)), Some(0));
}

#[test]
fn all_pools_present_are_summed() {
    let b = pools(Some(1), Some(20), Some(300), Some(4000));
    assert_eq!(total_balance_zat(&b), Some(4321));
}

#[test]
fn total_that_overflows_is_none() {
    let b = pools(Some(u64::MAX), None, Some(1), None);
    assert_eq!(total_balance_zat(&b), None);
    let b = pools(Some(u64::MAX - 1), None, Some(1), None);
    assert_eq!(total_balance_zat(&b), Some(u64::MAX));
}

#[test]
fn decimal_rendering() {
    assert_eq!(decimal_string(0), "0");
    assert_eq!(decimal_string(7), "7");
    assert_eq!(decimal_string(10), "10");
    assert_eq!(decimal_string(12345), "12345");
    assert_eq!(decimal_string(u64::MAX), "18446744073709551615");
}

#[test]
fn whole_coin_rendering() {
    assert_eq!(zec_string(0), "0.00000000");
    assert_eq!(zec_string(1), "0.00000001");
    assert_eq!(zec_string(100_000_000), "1.00000000");
    assert_eq!(zec_string(123_456_789), "1.23456789");
    assert_eq!(zec_string(2_100_000_000_000_000), "21000000.00000000");
    assert_eq!(zec_string(u64::MAX), "184467440737.09551615");
}
