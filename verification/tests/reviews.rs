use paydii::market::Contract;
use paydii::types::MarketError;

fn seed(c: &mut Contract, seller: &str, id: &str) {
    c.create_product(
        seller.to_string(),
        id.to_string(),
        "n".to_string(),
        10,
        "d".to_string(),
        "i".to_string(),
        true,
    )
    .map_err(|e| panic!("seed failed: {:?}", e))
    .ok();
}

#[test]
fn one_review_lands_in_both_indices() {
    let mut c = Contract::init();
    seed(&mut c, "s", "P1");
    let flag = match c.add_review("b".to_string(), "P1".to_string(), "nice".to_string(), 5) {
        Ok(flag) => flag,
        Err(e) => panic!("unexpected error: {:?}", e),
    };
    assert!(flag);
    let by_product = c.get_reviews("P1".to_string()).unwrap();
    assert_eq!(by_product.len(), 1);
    assert_eq!(by_product[0].product_id, "P1");
    assert_eq!(by_product[0].reviewer, "b");
    assert_eq!(by_product[0].content, "nice");
    assert_eq!(by_product[0].star, 5);
    let by_reviewer = c.get_my_reviews("b".to_string()).unwrap();
    assert_eq!(by_reviewer.len(), 1);
    assert_eq!(by_reviewer[0].product_id, "P1");
    assert_eq!(by_reviewer[0].content, "nice");
}

#[test]
fn reviewing_your_own_product_then_once_then_again() {
    let mut c = Contract::init();
    seed(&mut c, "s", "P1");
    // The seller's own attempt fails.
    let e = c.add_review("s".to_string(), "P1".to_string(), "nice".to_string(), 5).err().unwrap();
    assert_eq!(e, MarketError::SelfDealing);
    assert!(c.get_reviews("P1".to_string()).is_none());
    // The buyer's first attempt succeeds.
    assert!(c.add_review("b".to_string(), "P1".to_string(), "nice".to_string(), 5).is_ok());
    // The buyer's second attempt fails.
    let e = c.add_review("b".to_string(), "P1".to_string(), "again".to_string(), 1).err().unwrap();
    assert_eq!(e, MarketError::AlreadyReviewed);
    // Each index grew by exactly one.
    assert_eq!(c.get_reviews("P1".to_string()).unwrap().len(), 1);
    assert_eq!(c.get_my_reviews("b".to_string()).unwrap().len(), 1);
}

#[test]
fn review_of_absent_product_is_not_found() {
    let mut c = Contract::init();
    let e = c.add_review("b".to_string(), "nope".to_string(), "x".to_string(), 1).err().unwrap();
    assert_eq!(e, MarketError::NotFound);
    assert!(c.get_my_reviews("b".to_string()).is_none());
}

#[test]
fn distinct_reviewers_and_products_each_count_once() {
    let mut c = Contract::init();
    seed(&mut c, "s", "P1");
    seed(&mut c, "s", "P2");
    assert!(c.add_review("b1".to_string(), "P1".to_string(), "one".to_string(), 5).is_ok());
    assert!(c.add_review("b2".to_string(), "P1".to_string(), "two".to_string(), 4).is_ok());
    assert!(c.add_review("b1".to_string(), "P2".to_string(), "three".to_string(), 3).is_ok());
    let p1 = c.get_reviews("P1".to_string()).unwrap();
    assert_eq!(p1.len(), 2);
    assert_eq!(p1[0].content, "one");
    assert_eq!(p1[1].content, "two");
    assert_eq!(c.get_reviews("P2".to_string()).unwrap().len(), 1);
    let mine = c.get_my_reviews("b1".to_string()).unwrap();
    assert_eq!(mine.len(), 2);
    assert_eq!(mine[0].product_id, "P1");
    assert_eq!(mine[1].product_id, "P2");
    assert_eq!(c.get_my_reviews("b2".to_string()).unwrap().len(), 1);
    // The same author may still review another product, but not P1 again.
    let e = c.add_review("b1".to_string(), "P1".to_string(), "again".to_string(), 1).err().unwrap();
    assert_eq!(e, MarketError::AlreadyReviewed);
}

#[test]
fn star_rating_is_stored_as_given() {
    // No range is enforced on the rating; it is stored as handed in.
    let mut c = Contract::init();
    seed(&mut c, "s", "P1");
    assert!(c.add_review("b".to_string(), "P1".to_string(), "max".to_string(), u64::MAX).is_ok());
    assert_eq!(c.get_reviews("P1".to_string()).unwrap()[0].star, u64::MAX);
}
