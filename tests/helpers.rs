use cosmoswap::fee::split_fee;
use cosmoswap::funds::{check_single_coin, FundsError};
use cosmoswap::response::{find_contract_address, find_last_value, Attribute, Event};
use cosmoswap::types::{coin, BlockInfo, Decimal, Expiration, Timestamp, DECIMAL_FRACTIONAL};

fn attr(key: &str, value: &str) -> Attribute {
    Attribute { key: key.to_string(), value: value.to_string() }
}

#[test]
fn fee_is_the_product_rounded_down() {
    let s = split_fee(1_000, Decimal::percent(5)).unwrap();
    assert_eq!((s.fee, s.remainder), (50, 950));
    let s = split_fee(5_000, Decimal::percent(5)).unwrap();
    assert_eq!((s.fee, s.remainder), (250, 4_750));
    let s = split_fee(19, Decimal::percent(5)).unwrap();
    assert_eq!((s.fee, s.remainder), (0, 19));
    let s = split_fee(39, Decimal::percent(5)).unwrap();
    assert_eq!((s.fee, s.remainder), (1, 38));
    let s = split_fee(1_000, Decimal::raw(333_333_333_333_333_333)).unwrap();
    assert_eq!((s.fee, s.remainder), (333, 667));
}

#[test]
fn fee_at_the_edges_of_the_rate() {
    let s = split_fee(1_000, Decimal::percent(0)).unwrap();
    assert_eq!((s.fee, s.remainder), (0, 1_000));
    let s = split_fee(1_000, Decimal::one()).unwrap();
    assert_eq!((s.fee, s.remainder), (1_000, 0));
    let s = split_fee(u128::MAX, Decimal::one()).unwrap();
    assert_eq!((s.fee, s.remainder), (u128::MAX, 0));
    let s = split_fee(u128::MAX, Decimal::percent(50)).unwrap();
    assert_eq!(s.fee, u128::MAX / 2);
    assert_eq!(s.fee + s.remainder, u128::MAX);
    let s = split_fee(0, Decimal::percent(5)).unwrap();
    assert_eq!((s.fee, s.remainder), (0, 0));
}

#[test]
fn fee_above_the_amount_is_refused() {
    assert!(split_fee(1_000, Decimal::percent(101)).is_none());
    assert!(split_fee(u128::MAX, Decimal::percent(200)).is_none());
    // A rate just above one may still round down to the whole amount.
    let s = split_fee(1, Decimal::raw(DECIMAL_FRACTIONAL + 1)).unwrap();
    assert_eq!((s.fee, s.remainder), (1, 0));
    let s = split_fee(0, Decimal::percent(300)).unwrap();
    assert_eq!((s.fee, s.remainder), (0, 0));
}

#[test]
fn single_coin_check() {
    let expected = coin(1_000, "denom1");
    assert_eq!(check_single_coin(&vec![coin(1_000, "denom1")], &expected), Ok(()));
    assert_eq!(check_single_coin(&vec![], &expected), Err(FundsError::FundsNotFound {}));
    assert_eq!(
        check_single_coin(&vec![coin(1_000, "denom1"), coin(1_000, "denom1")], &expected),
        Err(FundsError::FundsNotFound {})
    );
    assert_eq!(
        check_single_coin(&vec![coin(1_000, "denom2")], &expected),
        Err(FundsError::InvalidDenom { got: "denom2".to_string(), expected: "denom1".to_string() })
    );
    assert_eq!(
        check_single_coin(&vec![coin(10, "denom1")], &expected),
        Err(FundsError::InvalidFunds { got: 10, expected: 1_000 })
    );
}

#[test]
fn expiration_boundaries() {
    let block = BlockInfo { height: 100, time: Timestamp::from_seconds(50) };
    assert!(Expiration::AtHeight(100).is_expired(&block));
    assert!(Expiration::AtHeight(99).is_expired(&block));
    assert!(!Expiration::AtHeight(101).is_expired(&block));
    assert!(Expiration::AtTime(Timestamp::from_seconds(50)).is_expired(&block));
    assert!(!Expiration::AtTime(Timestamp::from_nanos(50_000_000_001)).is_expired(&block));
    assert!(!Expiration::Never {}.is_expired(&block));
    assert_eq!(Timestamp::from_seconds(50).plus_seconds(10), Timestamp::from_nanos(60_000_000_000));
}

#[test]
fn last_attribute_wins() {
    let attrs = vec![attr("a", "1"), attr("b", "2"), attr("a", "3")];
    assert_eq!(find_last_value(&attrs, &"a".to_string()), Some("3".to_string()));
    assert_eq!(find_last_value(&attrs, &"b".to_string()), Some("2".to_string()));
    assert_eq!(find_last_value(&attrs, &"c".to_string()), None);
}

#[test]
fn contract_address_comes_from_wasm_events() {
    let events = vec![
        Event { ty: "wasm".to_string(), attributes: vec![attr("_contract_address", "contract4")] },
        Event { ty: "instantiate".to_string(), attributes: vec![attr("_contract_address", "contract5")] },
        Event { ty: "wasm".to_string(), attributes: vec![attr("action", "instantiate")] },
    ];
    assert_eq!(find_contract_address(&events), Some("contract4".to_string()));
    let mut rest = events;
    rest.remove(0);
    assert_eq!(find_contract_address(&rest), None);
}
