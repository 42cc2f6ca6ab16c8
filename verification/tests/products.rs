use paydii::market::Contract;
use paydii::types::MarketError;
use paydii::types::Product;

fn ok<T>(r: Result<T, MarketError>) -> T {
    match r {
        Ok(t) => t,
        Err(e) => panic!("unexpected error: {:?}", e),
    }
}

fn err<T>(r: Result<T, MarketError>) -> MarketError {
    match r {
        Ok(_) => panic!("unexpected success"),
        Err(e) => e,
    }
}

fn list(c: &mut Contract, seller: &str, id: &str, price: u128, active: bool) -> Product {
    ok(c.create_product(
        seller.to_string(),
        id.to_string(),
        format!("name of {}", id),
        price,
        format!("description of {}", id),
        format!("img of {}", id),
        active,
    ))
}

#[test]
fn donate() {}

#[test]
fn create_product_stores_the_record() {
    let mut c = Contract::init();
    let p = list(&mut c, "alice", "p1", 100, true);
    assert_eq!(p.id, "p1");
    assert_eq!(p.seller, "alice");
    assert_eq!(p.price, 100);
    assert!(p.is_active);
    let got = c.get_product("p1".to_string()).unwrap();
    assert_eq!(got.id, "p1");
    assert_eq!(got.name, "name of p1");
    assert_eq!(got.price, 100);
    assert_eq!(got.description, "description of p1");
    assert_eq!(got.img, "img of p1");
    assert_eq!(got.seller, "alice");
    assert!(got.is_active);
}

#[test]
fn duplicate_id_is_refused_and_record_kept() {
    let mut c = Contract::init();
    list(&mut c, "alice", "p1", 100, true);
    let e = err(c.create_product(
        "bob".to_string(),
        "p1".to_string(),
        "other".to_string(),
        5,
        "other".to_string(),
        "other".to_string(),
        false,
    ));
    assert_eq!(e, MarketError::AlreadyExists);
    // The first record is untouched.
    let got = c.get_product("p1".to_string()).unwrap();
    assert_eq!(got.name, "name of p1");
    assert_eq!(got.price, 100);
    assert_eq!(got.seller, "alice");
    assert!(got.is_active);
    assert_eq!(c.get_all_products().len(), 1);
    assert_eq!(c.get_seller_product("bob".to_string()), None);
}

#[test]
fn update_by_owner_replaces_mutable_fields() {
    let mut c = Contract::init();
    list(&mut c, "alice", "p1", 100, true);
    let p = ok(c.update_product(
        "alice".to_string(),
        "p1".to_string(),
        "new name".to_string(),
        250,
        "new description".to_string(),
        "new img".to_string(),
        false,
    ));
    assert_eq!(p.id, "p1");
    assert_eq!(p.seller, "alice");
    assert_eq!(p.price, 250);
    assert!(!p.is_active);
    let got = c.get_product("p1".to_string()).unwrap();
    assert_eq!(got.name, "new name");
    assert_eq!(got.price, 250);
    assert_eq!(got.description, "new description");
    assert_eq!(got.img, "new img");
    assert!(!got.is_active);
    // No index changes.
    assert_eq!(c.get_seller_product("alice".to_string()), Some(vec!["p1".to_string()]));
    assert_eq!(c.get_all_products(), vec!["p1".to_string()]);
}

#[test]
fn update_by_stranger_is_unauthorized_and_changes_nothing() {
    let mut c = Contract::init();
    list(&mut c, "alice", "p1", 100, true);
    let e = err(c.update_product(
        "mallory".to_string(),
        "p1".to_string(),
        "stolen".to_string(),
        1,
        "stolen".to_string(),
        "stolen".to_string(),
        false,
    ));
    assert_eq!(e, MarketError::Unauthorized);
    let got = c.get_product("p1".to_string()).unwrap();
    assert_eq!(got.name, "name of p1");
    assert_eq!(got.price, 100);
    assert!(got.is_active);
}

#[test]
fn update_of_absent_product_is_not_found() {
    let mut c = Contract::init();
    let e = err(c.update_product(
        "alice".to_string(),
        "nope".to_string(),
        "n".to_string(),
        1,
        "d".to_string(),
        "i".to_string(),
        true,
    ));
    assert_eq!(e, MarketError::NotFound);
}

#[test]
fn seller_index_and_global_list_grow_by_exactly_one() {
    let mut c = Contract::init();
    list(&mut c, "alice", "p1", 10, true);
    let before_seller = c.get_seller_product("alice".to_string()).unwrap();
    let before_all = c.get_all_products();
    assert_eq!(before_seller.iter().filter(|i| i.as_str() == "p2").count(), 0);
    list(&mut c, "alice", "p2", 20, true);
    let after_seller = c.get_seller_product("alice".to_string()).unwrap();
    let after_all = c.get_all_products();
    assert_eq!(after_seller.iter().filter(|i| i.as_str() == "p2").count(), 1);
    assert_eq!(after_seller.len(), before_seller.len() + 1);
    assert_eq!(after_all.len(), before_all.len() + 1);
    assert_eq!(after_all, vec!["p1".to_string(), "p2".to_string()]);
}

#[test]
fn sellers_have_separate_indices() {
    let mut c = Contract::init();
    list(&mut c, "alice", "p1", 10, true);
    list(&mut c, "bob", "p2", 20, true);
    list(&mut c, "alice", "p3", 30, true);
    assert_eq!(
        c.get_seller_product("alice".to_string()),
        Some(vec!["p1".to_string(), "p3".to_string()])
    );
    assert_eq!(c.get_seller_product("bob".to_string()), Some(vec!["p2".to_string()]));
    assert_eq!(c.get_seller_product("carol".to_string()), None);
    assert_eq!(
        c.get_all_products(),
        vec!["p1".to_string(), "p2".to_string(), "p3".to_string()]
    );
}

#[test]
fn empty_store_reads_as_empty() {
    let c = Contract::init();
    assert_eq!(c.get_all_products(), Vec::<String>::new());
    assert!(c.get_product("p1".to_string()).is_none());
    assert_eq!(c.get_seller_product("alice".to_string()), None);
    assert_eq!(c.get_buyer_addresses("p1".to_string()), None);
    assert!(c.get_seller_coupons("alice".to_string()).is_none());
    assert!(c.get_reviews("p1".to_string()).is_none());
    assert!(c.get_my_reviews("bob".to_string()).is_none());
    assert!(c.get_coupon_details("p1".to_string(), "X".to_string(), "alice".to_string()).is_none());
}

#[test]
fn default_store_is_empty() {
    let c = Contract::default();
    assert_eq!(c.get_all_products(), Vec::<String>::new());
    assert!(c.get_product("p1".to_string()).is_none());
}

#[test]
fn product_json_projects_every_field_but_the_price() {
    let mut c = Contract::init();
    list(&mut c, "alice", "p1", 100, true);
    let j = c.get_product_json("p1".to_string());
    assert_eq!(j.id, "p1");
    assert_eq!(j.name, "name of p1");
    assert_eq!(j.description, "description of p1");
    assert_eq!(j.img, "img of p1");
    assert_eq!(j.seller, "alice");
    assert!(j.is_active);
}

#[test]
fn error_messages_name_each_kind() {
    assert_eq!(MarketError::NotFound.message(), "the referenced entity does not exist");
    assert_eq!(MarketError::AlreadyExists.message(), "this identity is already taken");
    assert_eq!(MarketError::Unauthorized.message(), "the caller does not own this record");
    assert_eq!(MarketError::SelfDealing.message(), "the caller cannot deal with itself");
    assert_eq!(MarketError::Inactive.message(), "this product is inactive");
    assert_eq!(
        MarketError::AlreadyReviewed.message(),
        "the caller has already reviewed this product"
    );
}
