use paydii::market::Contract;
use paydii::types::MarketError;

fn seed(c: &mut Contract, seller: &str, id: &str) {
    c.create_product(
        seller.to_string(),
        id.to_string(),
        "n".to_string(),
        10,
        "d".to_string(),
        "i".to_string(),
        true,
    )
    .map_err(|e| panic!("seed failed: {:?}", e))
    .ok();
}

#[test]
fn create_coupon_stores_and_indexes_it() {
    let mut c = Contract::init();
    seed(&mut c, "alice", "p1");
    let cp = match c.create_coupon("alice".to_string(), "p1".to_string(), "SAVE".to_string(), 3, 2)
    {
        Ok(cp) => cp,
        Err(e) => panic!("unexpected error: {:?}", e),
    };
    assert_eq!(cp.product_id, "p1");
    assert_eq!(cp.code, "SAVE");
    assert_eq!(cp.seller, "alice");
    assert_eq!(cp.allowed_uses, 3);
    assert_eq!(cp.discount_amount, 2);
    let got = c
        .get_coupon_details("p1".to_string(), "SAVE".to_string(), "alice".to_string())
        .unwrap();
    assert_eq!(got.allowed_uses, 3);
    assert_eq!(got.discount_amount, 2);
    let keys = c.get_seller_coupons("alice".to_string()).unwrap();
    assert_eq!(keys.len(), 1);
    assert_eq!(keys[0].product_id, "p1");
    assert_eq!(keys[0].code, "SAVE");
    assert_eq!(keys[0].seller, "alice");
}

#[test]
fn coupon_on_absent_product_is_not_found() {
    let mut c = Contract::init();
    let e = c
        .create_coupon("alice".to_string(), "nope".to_string(), "SAVE".to_string(), 1, 1)
        .err()
        .unwrap();
    assert_eq!(e, MarketError::NotFound);
}

#[test]
fn coupon_by_stranger_is_unauthorized() {
    let mut c = Contract::init();
    seed(&mut c, "alice", "p1");
    let e = c
        .create_coupon("mallory".to_string(), "p1".to_string(), "SAVE".to_string(), 1, 1)
        .err()
        .unwrap();
    assert_eq!(e, MarketError::Unauthorized);
    assert!(c.get_seller_coupons("mallory".to_string()).is_none());
}

#[test]
fn duplicate_coupon_key_is_refused() {
    let mut c = Contract::init();
    seed(&mut c, "alice", "p1");
    assert!(c.create_coupon("alice".to_string(), "p1".to_string(), "SAVE".to_string(), 1, 1).is_ok());
    let e = c
        .create_coupon("alice".to_string(), "p1".to_string(), "SAVE".to_string(), 9, 9)
        .err()
        .unwrap();
    assert_eq!(e, MarketError::AlreadyExists);
    // The first coupon is untouched.
    let got = c
        .get_coupon_details("p1".to_string(), "SAVE".to_string(), "alice".to_string())
        .unwrap();
    assert_eq!(got.allowed_uses, 1);
    assert_eq!(got.discount_amount, 1);
    assert_eq!(c.get_seller_coupons("alice".to_string()).unwrap().len(), 1);
}

#[test]
fn same_code_different_product_or_seller_is_isolated() {
    let mut c = Contract::init();
    seed(&mut c, "alice", "p1");
    seed(&mut c, "alice", "p2");
    seed(&mut c, "bob", "q1");
    // Same code on two products of one seller, and on a third product of
    // another seller: all three succeed.
    assert!(c.create_coupon("alice".to_string(), "p1".to_string(), "SAVE".to_string(), 1, 10).is_ok());
    assert!(c.create_coupon("alice".to_string(), "p2".to_string(), "SAVE".to_string(), 2, 20).is_ok());
    assert!(c.create_coupon("bob".to_string(), "q1".to_string(), "SAVE".to_string(), 3, 30).is_ok());
    // Each is independently retrievable under its own composite key.
    let a1 = c
        .get_coupon_details("p1".to_string(), "SAVE".to_string(), "alice".to_string())
        .unwrap();
    let a2 = c
        .get_coupon_details("p2".to_string(), "SAVE".to_string(), "alice".to_string())
        .unwrap();
    let b1 = c
        .get_coupon_details("q1".to_string(), "SAVE".to_string(), "bob".to_string())
        .unwrap();
    assert_eq!(a1.discount_amount, 10);
    assert_eq!(a2.discount_amount, 20);
    assert_eq!(b1.discount_amount, 30);
    assert!(c.get_coupon_details("p1".to_string(), "SAVE".to_string(), "bob".to_string()).is_none());
}

#[test]
fn update_coupon_replaces_amounts_only() {
    let mut c = Contract::init();
    seed(&mut c, "alice", "p1");
    assert!(c.create_coupon("alice".to_string(), "p1".to_string(), "SAVE".to_string(), 1, 1).is_ok());
    let cp = match c.update_coupon("alice".to_string(), "p1".to_string(), "SAVE".to_string(), 5, 7)
    {
        Ok(cp) => cp,
        Err(e) => panic!("unexpected error: {:?}", e),
    };
    assert_eq!(cp.allowed_uses, 5);
    assert_eq!(cp.discount_amount, 7);
    assert_eq!(cp.product_id, "p1");
    assert_eq!(cp.code, "SAVE");
    assert_eq!(cp.seller, "alice");
    let got = c
        .get_coupon_details("p1".to_string(), "SAVE".to_string(), "alice".to_string())
        .unwrap();
    assert_eq!(got.allowed_uses, 5);
    assert_eq!(got.discount_amount, 7);
    // The index still holds exactly one key.
    assert_eq!(c.get_seller_coupons("alice".to_string()).unwrap().len(), 1);
}

#[test]
fn update_of_absent_coupon_is_not_found() {
    let mut c = Contract::init();
    seed(&mut c, "alice", "p1");
    let e = c
        .update_coupon("alice".to_string(), "p1".to_string(), "NOPE".to_string(), 1, 1)
        .err()
        .unwrap();
    assert_eq!(e, MarketError::NotFound);
}

#[test]
fn update_coupon_by_stranger_is_unauthorized() {
    let mut c = Contract::init();
    seed(&mut c, "alice", "p1");
    assert!(c.create_coupon("alice".to_string(), "p1".to_string(), "SAVE".to_string(), 1, 1).is_ok());
    let e = c
        .update_coupon("mallory".to_string(), "p1".to_string(), "SAVE".to_string(), 9, 9)
        .err()
        .unwrap();
    assert_eq!(e, MarketError::Unauthorized);
    let got = c
        .get_coupon_details("p1".to_string(), "SAVE".to_string(), "alice".to_string())
        .unwrap();
    assert_eq!(got.allowed_uses, 1);
}
