use paydii::market::Contract;
use paydii::types::MarketError;

fn seed(c: &mut Contract, seller: &str, id: &str, price: u128, active: bool) {
    c.create_product(
        seller.to_string(),
        id.to_string(),
        "n".to_string(),
        price,
        "d".to_string(),
        "i".to_string(),
        active,
    )
    .map_err(|e| panic!("seed failed: {:?}", e))
    .ok();
}

#[test]
fn buying_lists_the_buyer_and_authorizes_one_transfer() {
    let mut c = Contract::init();
    seed(&mut c, "s", "P1", 100, true);
    let r = c.buy_product("b".to_string(), "P1".to_string());
    let t = match r {
        Ok(t) => t,
        Err(e) => panic!("unexpected error: {:?}", e),
    };
    // Exactly one transfer of the full price, buyer to seller.
    assert_eq!(t.from, "b");
    assert_eq!(t.to, "s");
    assert_eq!(t.amount, 100);
    assert_eq!(c.get_buyer_addresses("P1".to_string()), Some(vec!["b".to_string()]));
}

#[test]
fn repeat_purchases_accumulate() {
    let mut c = Contract::init();
    seed(&mut c, "s", "P1", 7, true);
    assert!(c.buy_product("b".to_string(), "P1".to_string()).is_ok());
    assert!(c.buy_product("b2".to_string(), "P1".to_string()).is_ok());
    assert!(c.buy_product("b".to_string(), "P1".to_string()).is_ok());
    assert_eq!(
        c.get_buyer_addresses("P1".to_string()),
        Some(vec!["b".to_string(), "b2".to_string(), "b".to_string()])
    );
}

#[test]
fn buying_an_absent_product_is_not_found() {
    let mut c = Contract::init();
    let e = c.buy_product("b".to_string(), "nope".to_string()).err().unwrap();
    assert_eq!(e, MarketError::NotFound);
    assert_eq!(c.get_buyer_addresses("nope".to_string()), None);
}

#[test]
fn buying_your_own_product_is_self_dealing() {
    let mut c = Contract::init();
    seed(&mut c, "s", "P1", 100, true);
    let e = c.buy_product("s".to_string(), "P1".to_string()).err().unwrap();
    assert_eq!(e, MarketError::SelfDealing);
    // No index mutation.
    assert_eq!(c.get_buyer_addresses("P1".to_string()), None);
}

#[test]
fn buying_an_inactive_product_is_refused() {
    let mut c = Contract::init();
    seed(&mut c, "s", "P1", 100, false);
    let e = c.buy_product("b".to_string(), "P1".to_string()).err().unwrap();
    assert_eq!(e, MarketError::Inactive);
    assert_eq!(c.get_buyer_addresses("P1".to_string()), None);
}

#[test]
fn deactivation_stops_sales_and_reactivation_resumes_them() {
    let mut c = Contract::init();
    seed(&mut c, "s", "P1", 5, true);
    assert!(c.buy_product("b".to_string(), "P1".to_string()).is_ok());
    assert!(
        c.update_product(
            "s".to_string(),
            "P1".to_string(),
            "n".to_string(),
            5,
            "d".to_string(),
            "i".to_string(),
            false,
        )
        .is_ok()
    );
    assert_eq!(
        c.buy_product("b".to_string(), "P1".to_string()).err().unwrap(),
        MarketError::Inactive
    );
    assert!(
        c.update_product(
            "s".to_string(),
            "P1".to_string(),
            "n".to_string(),
            5,
            "d".to_string(),
            "i".to_string(),
            true,
        )
        .is_ok()
    );
    assert!(c.buy_product("b".to_string(), "P1".to_string()).is_ok());
    assert_eq!(
        c.get_buyer_addresses("P1".to_string()),
        Some(vec!["b".to_string(), "b".to_string()])
    );
}
