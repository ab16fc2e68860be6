use steak_zapper::asset::{new_cw20, new_native_from_funds, Asset, AssetInfo, Fund, ZapperError};
use steak_zapper::event::{event_contains_attr, Attribute, Event};
use steak_zapper::render::{stringify_asset, u128_to_dec};

fn fund(denom: &str, amount: u128) -> Fund {
    Fund { denom: denom.to_string(), amount }
}

fn attr(key: &str, value: &str) -> Attribute {
    Attribute { key: key.to_string(), value: value.to_string() }
}

fn event(attributes: Vec<Attribute>) -> Event {
    Event { ty: "wasm".to_string(), attributes }
}

#[test]
fn from_funds_single_coin_succeeds() {
    let funds = vec![fund("uluna", 1000000)];
    let asset = new_native_from_funds(&funds).unwrap();
    assert_eq!(asset.amount, 1000000);
    match asset.info {
        AssetInfo::NativeToken { denom } => assert_eq!(denom, "uluna"),
        AssetInfo::Token { .. } => panic!("expected a native asset"),
    }
}

#[test]
fn from_funds_preserves_arbitrary_fund() {
    let funds = vec![fund("ibc/27394FB092D2ECCD56123C74F36E4C1F", u128::MAX)];
    let asset = new_native_from_funds(&funds).unwrap();
    assert_eq!(asset.amount, u128::MAX);
    match asset.info {
        AssetInfo::NativeToken { denom } => {
            assert_eq!(denom, "ibc/27394FB092D2ECCD56123C74F36E4C1F")
        }
        AssetInfo::Token { .. } => panic!("expected a native asset"),
    }
}

#[test]
fn from_funds_empty_is_rejected() {
    let funds: Vec<Fund> = vec![];
    let err = new_native_from_funds(&funds).unwrap_err();
    assert_eq!(err, ZapperError::InvalidFundsCount(0));
}

#[test]
fn from_funds_two_coins_are_rejected() {
    let funds = vec![fund("uluna", 1), fund("uusd", 2)];
    let err = new_native_from_funds(&funds).unwrap_err();
    assert_eq!(err, ZapperError::InvalidFundsCount(2));
}

#[test]
fn from_funds_same_denom_twice_still_counts_as_two() {
    let funds = vec![fund("uluna", 1), fund("uluna", 2)];
    let err = new_native_from_funds(&funds).unwrap_err();
    assert_eq!(err, ZapperError::InvalidFundsCount(2));
}

#[test]
fn new_cw20_preserves_address_and_amount() {
    let asset = new_cw20("terra1abcdefghijklmnop".to_string(), 500);
    assert_eq!(asset.amount, 500);
    match asset.info {
        AssetInfo::Token { contract_addr } => assert_eq!(contract_addr, "terra1abcdefghijklmnop"),
        AssetInfo::NativeToken { .. } => panic!("expected a contract-token asset"),
    }
}

#[test]
fn new_cw20_accepts_zero_amount_and_empty_address() {
    let asset = new_cw20(String::new(), 0);
    assert_eq!(asset.amount, 0);
    match asset.info {
        AssetInfo::Token { contract_addr } => assert_eq!(contract_addr, ""),
        AssetInfo::NativeToken { .. } => panic!("expected a contract-token asset"),
    }
}

#[test]
fn stringify_native_asset() {
    let asset = Asset {
        info: AssetInfo::NativeToken { denom: "uluna".to_string() },
        amount: 1000000,
    };
    assert_eq!(stringify_asset(&asset), "native:uluna:1000000");
}

#[test]
fn stringify_cw20_asset() {
    let asset = Asset {
        info: AssetInfo::Token { contract_addr: "terra1abcdefghijklmnop".to_string() },
        amount: 500,
    };
    assert_eq!(stringify_asset(&asset), "cw20:terra1abcdefghijklmnop:500");
}

#[test]
fn stringify_zero_amount() {
    let asset = Asset { info: AssetInfo::NativeToken { denom: "uusd".to_string() }, amount: 0 };
    assert_eq!(stringify_asset(&asset), "native:uusd:0");
}

#[test]
fn decimal_rendering_exact_values() {
    assert_eq!(u128_to_dec(0), "0");
    assert_eq!(u128_to_dec(7), "7");
    assert_eq!(u128_to_dec(10), "10");
    assert_eq!(u128_to_dec(1000000), "1000000");
    assert_eq!(u128_to_dec(90123456789), "90123456789");
    assert_eq!(
        u128_to_dec(u128::MAX),
        "340282366920938463463374607431768211455"
    );
}

#[test]
fn contains_finds_matching_attribute() {
    let e = event(vec![attr("recipient", "terra1xyz"), attr("action", "swap")]);
    assert!(event_contains_attr(&e, "action", "swap"));
    assert!(event_contains_attr(&e, "recipient", "terra1xyz"));
}

#[test]
fn contains_requires_key_and_value_to_match_together() {
    let e = event(vec![attr("action", "deposit"), attr("kind", "swap")]);
    assert!(!event_contains_attr(&e, "action", "swap"));
}

#[test]
fn contains_is_false_without_attributes() {
    let e = event(vec![]);
    assert!(!event_contains_attr(&e, "action", "swap"));
}

#[test]
fn contains_is_case_sensitive() {
    let e = event(vec![attr("action", "swap")]);
    assert!(!event_contains_attr(&e, "Action", "swap"));
    assert!(!event_contains_attr(&e, "action", "Swap"));
    assert!(event_contains_attr(&e, "action", "swap"));
}

#[test]
fn contains_does_not_trim() {
    let e = event(vec![attr("action", "swap ")]);
    assert!(!event_contains_attr(&e, "action", "swap"));
    assert!(event_contains_attr(&e, "action", "swap "));
}

#[test]
fn repeated_calls_give_identical_outputs() {
    let funds = vec![fund("uluna", 42)];
    let first = new_native_from_funds(&funds).unwrap();
    let second = new_native_from_funds(&funds).unwrap();
    assert_eq!(stringify_asset(&first), stringify_asset(&second));

    let e = event(vec![attr("action", "swap")]);
    assert_eq!(
        event_contains_attr(&e, "action", "swap"),
        event_contains_attr(&e, "action", "swap")
    );
}
