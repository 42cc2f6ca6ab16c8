//! The marketplace store: primary registries, their indices, and the
//! transition rules that keep them consistent.
//!
//! Every mutating operation takes the resolved caller identity as its first
//! argument, validates fully before writing, and either applies the primary
//! write together with all index writes or returns an error and changes
//! nothing. The `*_err` spec functions say, input by input, exactly which
//! error an operation returns; the `*_created`/`*_updated` predicates say
//! exactly how a successful operation moves the store.

use crate::table::dup_vec;
use crate::table::lemma_deep_view_congruent;
use crate::table::lemma_deep_view_push;
use crate::table::Table;
use crate::types::Coupon;
use crate::types::CouponKey;
use crate::types::CouponKeyView;
use crate::types::CouponView;
use crate::types::MarketError;
use crate::types::Product;
use crate::types::ProductJson;
use crate::types::ProductJsonView;
use crate::types::ProductView;
use crate::types::Review;
use crate::types::ReviewTrackingKey;
use crate::types::ReviewTrackingKeyView;
use crate::types::ReviewView;
use crate::types::Transfer;
use crate::types::TransferView;
use vstd::pervasive::unreached;
use vstd::prelude::*;

verus! {

/// The whole marketplace state: primary maps and their denormalized indices.
pub struct Contract {
    /// Every product id ever created, in creation order.
    pub product_list: Vec<String>,
    /// Primary product registry, keyed by product id.
    pub products: Table<String, Product>,
    /// Index: seller to the ids of the products it created, in creation order.
    pub products_by_sellers: Table<String, Vec<String>>,
    /// Index: product id to the buyers that purchased it, in purchase order,
    /// repeat purchases appended.
    pub buyer_addresses: Table<String, Vec<String>>,
    /// Primary coupon registry, keyed by `(product, code, seller)`.
    pub coupons: Table<CouponKey, Coupon>,
    /// Index: seller to the keys of the coupons it created, in creation order.
    pub coupons_by_seller: Table<String, Vec<CouponKey>>,
    /// Index: product id to its reviews, in creation order.
    pub reviews: Table<String, Vec<Review>>,
    /// Index: review author to the reviews they wrote, in creation order.
    pub my_reviews: Table<String, Vec<Review>>,
    /// Tracking map: the product and author pairs that already hold a review.
    pub review_tracking: Table<ReviewTrackingKey, bool>,
}

impl Contract {
    /// The product record stored under `id`.
    pub open spec fn product_view(self, id: Seq<char>) -> Option<ProductView> {
        match self.products.map_get(id) {
            Some(p) => Some(p@),
            None => None,
        }
    }

    /// Whether a product with this `id` exists.
    pub open spec fn has_product(self, id: Seq<char>) -> bool {
        self.product_view(id) is Some
    }

    /// The seller owning the product stored under `id`.
    pub open spec fn product_seller(self, id: Seq<char>) -> Seq<char>
        recommends
            self.has_product(id),
    {
        self.product_view(id)->Some_0.seller
    }

    /// All product ids, in creation order.
    pub open spec fn all_products(self) -> Seq<Seq<char>> {
        self.product_list.deep_view()
    }

    /// The seller index entry of `seller`, if it has one.
    pub open spec fn seller_index(self, seller: Seq<char>) -> Option<Seq<Seq<char>>> {
        match self.products_by_sellers.map_get(seller) {
            Some(v) => Some(v.deep_view()),
            None => None,
        }
    }

    /// The ids of the products `seller` created, in creation order.
    pub open spec fn seller_products(self, seller: Seq<char>) -> Seq<Seq<char>> {
        match self.seller_index(seller) {
            Some(ids) => ids,
            None => Seq::empty(),
        }
    }

    /// The buyer index entry of `product_id`, if it has one.
    pub open spec fn buyers_index(self, product_id: Seq<char>) -> Option<Seq<Seq<char>>> {
        match self.buyer_addresses.map_get(product_id) {
            Some(v) => Some(v.deep_view()),
            None => None,
        }
    }

    /// The buyers of `product_id`, in purchase order, repeats kept.
    pub open spec fn product_buyers(self, product_id: Seq<char>) -> Seq<Seq<char>> {
        match self.buyers_index(product_id) {
            Some(b) => b,
            None => Seq::empty(),
        }
    }

    /// The coupon stored under the composite key `(product_id, code, seller)`.
    pub open spec fn coupon_view(
        self,
        product_id: Seq<char>,
        code: Seq<char>,
        seller: Seq<char>,
    ) -> Option<CouponView> {
        match self.coupons.map_get(CouponKeyView { product_id, code, seller }) {
            Some(c) => Some(c@),
            None => None,
        }
    }

    /// The coupon index entry of `seller`, if it has one.
    pub open spec fn seller_coupons_index(self, seller: Seq<char>) -> Option<Seq<CouponKeyView>> {
        match self.coupons_by_seller.map_get(seller) {
            Some(v) => Some(v.deep_view()),
            None => None,
        }
    }

    /// The keys of the coupons `seller` created, in creation order.
    pub open spec fn seller_coupons(self, seller: Seq<char>) -> Seq<CouponKeyView> {
        match self.seller_coupons_index(seller) {
            Some(ks) => ks,
            None => Seq::empty(),
        }
    }

    /// The review index entry of `product_id`, if it has one.
    pub open spec fn reviews_index(self, product_id: Seq<char>) -> Option<Seq<ReviewView>> {
        match self.reviews.map_get(product_id) {
            Some(v) => Some(v.deep_view()),
            None => None,
        }
    }

    /// The reviews of `product_id`, in creation order.
    pub open spec fn product_reviews(self, product_id: Seq<char>) -> Seq<ReviewView> {
        match self.reviews_index(product_id) {
            Some(rs) => rs,
            None => Seq::empty(),
        }
    }

    /// The personal review index entry of the given author, if there is one.
    pub open spec fn reviewer_index(self, reviewer: Seq<char>) -> Option<Seq<ReviewView>> {
        match self.my_reviews.map_get(reviewer) {
            Some(v) => Some(v.deep_view()),
            None => None,
        }
    }

    /// The reviews the given author wrote, in creation order.
    pub open spec fn reviewer_reviews(self, reviewer: Seq<char>) -> Seq<ReviewView> {
        match self.reviewer_index(reviewer) {
            Some(rs) => rs,
            None => Seq::empty(),
        }
    }

    /// Whether the given author has already reviewed `product_id`.
    pub open spec fn reviewed(self, product_id: Seq<char>, reviewer: Seq<char>) -> bool {
        self.review_tracking.map_get(ReviewTrackingKeyView { product_id, reviewer }) == Some(true)
    }

    /// A store with no products, no purchases, no coupons and no reviews.
    pub open spec fn is_empty_store(self) -> bool {
        &&& self.all_products() == Seq::<Seq<char>>::empty()
        &&& forall|id: Seq<char>| #[trigger] self.product_view(id) is None
        &&& forall|s: Seq<char>| #[trigger] self.seller_index(s) is None
        &&& forall|pid: Seq<char>| #[trigger] self.buyers_index(pid) is None
        &&& forall|pid: Seq<char>, code: Seq<char>, s: Seq<char>| #[trigger] self.coupon_view(
            pid,
            code,
            s,
        ) is None
        &&& forall|s: Seq<char>| #[trigger] self.seller_coupons_index(s) is None
        &&& forall|pid: Seq<char>| #[trigger] self.reviews_index(pid) is None
        &&& forall|rv: Seq<char>| #[trigger] self.reviewer_index(rv) is None
        &&& forall|pid: Seq<char>, rv: Seq<char>| !(#[trigger] self.reviewed(pid, rv))
    }

    /// The error `create_product` answers under `id`, if any.
    pub open spec fn create_product_err(self, id: Seq<char>) -> Option<MarketError> {
        if self.has_product(id) {
            Some(MarketError::AlreadyExists)
        } else {
            None
        }
    }

    /// The error `update_product` answers for `caller` and `id`, if any.
    pub open spec fn update_product_err(self, caller: Seq<char>, id: Seq<char>) -> Option<
        MarketError,
    > {
        if !self.has_product(id) {
            Some(MarketError::NotFound)
        } else if self.product_seller(id) != caller {
            Some(MarketError::Unauthorized)
        } else {
            None
        }
    }

    /// The error `buy_product` answers for `caller` and `product_id`, if any.
    pub open spec fn buy_product_err(self, caller: Seq<char>, product_id: Seq<char>) -> Option<
        MarketError,
    > {
        if !self.has_product(product_id) {
            Some(MarketError::NotFound)
        } else if self.product_seller(product_id) == caller {
            Some(MarketError::SelfDealing)
        } else if !self.product_view(product_id)->Some_0.is_active {
            Some(MarketError::Inactive)
        } else {
            None
        }
    }

    /// The error `create_coupon` answers for `caller`, `product_id` and
    /// `code`, if any.
    pub open spec fn create_coupon_err(
        self,
        caller: Seq<char>,
        product_id: Seq<char>,
        code: Seq<char>,
    ) -> Option<MarketError> {
        if !self.has_product(product_id) {
            Some(MarketError::NotFound)
        } else if self.product_seller(product_id) != caller {
            Some(MarketError::Unauthorized)
        } else if self.coupon_view(product_id, code, caller) is Some {
            Some(MarketError::AlreadyExists)
        } else {
            None
        }
    }

    /// The error `update_coupon` answers for `caller`, `product_id` and
    /// `code`, if any.
    pub open spec fn update_coupon_err(
        self,
        caller: Seq<char>,
        product_id: Seq<char>,
        code: Seq<char>,
    ) -> Option<MarketError> {
        if !self.has_product(product_id) {
            Some(MarketError::NotFound)
        } else if self.product_seller(product_id) != caller {
            Some(MarketError::Unauthorized)
        } else if self.coupon_view(product_id, code, caller) is None {
            Some(MarketError::NotFound)
        } else {
            None
        }
    }

    /// The error `add_review` answers for `caller` and `product_id`, if any.
    pub open spec fn add_review_err(self, caller: Seq<char>, product_id: Seq<char>) -> Option<
        MarketError,
    > {
        if !self.has_product(product_id) {
            Some(MarketError::NotFound)
        } else if self.product_seller(product_id) == caller {
            Some(MarketError::SelfDealing)
        } else if self.reviewed(product_id, caller) {
            Some(MarketError::AlreadyReviewed)
        } else {
            None
        }
    }
}

/// How a successful `create_product` moves the store: the new record is
/// stored under `id` with `caller` as seller, `id` is appended to the
/// caller's seller index and to the global product list, and nothing else
/// changes.
pub open spec fn product_created(
    pre: Contract,
    post: Contract,
    caller: Seq<char>,
    id: Seq<char>,
    name: Seq<char>,
    price: u128,
    description: Seq<char>,
    img: Seq<char>,
    is_active: bool,
) -> bool {
    &&& post.product_view(id) == Some(
        ProductView { id, name, price, description, img, is_active, seller: caller },
    )
    &&& forall|k: Seq<char>| k != id ==> #[trigger] post.product_view(k) == pre.product_view(k)
    &&& post.seller_index(caller) == Some(pre.seller_products(caller).push(id))
    &&& forall|s: Seq<char>| s != caller ==> #[trigger] post.seller_index(s) == pre.seller_index(s)
    &&& post.all_products() == pre.all_products().push(id)
    &&& post.buyer_addresses == pre.buyer_addresses
    &&& post.coupons == pre.coupons
    &&& post.coupons_by_seller == pre.coupons_by_seller
    &&& post.reviews == pre.reviews
    &&& post.my_reviews == pre.my_reviews
    &&& post.review_tracking == pre.review_tracking
}

/// How a successful `update_product` moves the store: all mutable fields of
/// the record under `id` are replaced, `id` and the seller (the caller) are
/// carried over, and nothing else changes — in particular no index changes.
pub open spec fn product_updated(
    pre: Contract,
    post: Contract,
    caller: Seq<char>,
    id: Seq<char>,
    name: Seq<char>,
    price: u128,
    description: Seq<char>,
    img: Seq<char>,
    is_active: bool,
) -> bool {
    &&& post.product_view(id) == Some(
        ProductView { id, name, price, description, img, is_active, seller: caller },
    )
    &&& forall|k: Seq<char>| k != id ==> #[trigger] post.product_view(k) == pre.product_view(k)
    &&& post.product_list == pre.product_list
    &&& post.products_by_sellers == pre.products_by_sellers
    &&& post.buyer_addresses == pre.buyer_addresses
    &&& post.coupons == pre.coupons
    &&& post.coupons_by_seller == pre.coupons_by_seller
    &&& post.reviews == pre.reviews
    &&& post.my_reviews == pre.my_reviews
    &&& post.review_tracking == pre.review_tracking
}

/// How a successful `buy_product` moves the store: the caller is appended to
/// the product's buyer index (created on first purchase, repeats kept) and
/// nothing else changes.
pub open spec fn purchase_recorded(
    pre: Contract,
    post: Contract,
    caller: Seq<char>,
    product_id: Seq<char>,
) -> bool {
    &&& post.buyers_index(product_id) == Some(pre.product_buyers(product_id).push(caller))
    &&& forall|p: Seq<char>| p != product_id ==> #[trigger] post.buyers_index(p)
        == pre.buyers_index(p)
    &&& post.product_list == pre.product_list
    &&& post.products == pre.products
    &&& post.products_by_sellers == pre.products_by_sellers
    &&& post.coupons == pre.coupons
    &&& post.coupons_by_seller == pre.coupons_by_seller
    &&& post.reviews == pre.reviews
    &&& post.my_reviews == pre.my_reviews
    &&& post.review_tracking == pre.review_tracking
}

/// How a successful `create_coupon` moves the store: the new coupon is
/// stored under `(product_id, code, caller)`, that key is appended to the
/// caller's coupon index (created on first coupon), and nothing else changes.
pub open spec fn coupon_created(
    pre: Contract,
    post: Contract,
    caller: Seq<char>,
    product_id: Seq<char>,
    code: Seq<char>,
    allowed_uses: u128,
    discount_amount: u128,
) -> bool {
    &&& post.coupon_view(product_id, code, caller) == Some(
        CouponView { code, product_id, discount_amount, allowed_uses, seller: caller },
    )
    &&& forall|p: Seq<char>, c: Seq<char>, s: Seq<char>|
        !(p == product_id && c == code && s == caller) ==> #[trigger] post.coupon_view(p, c, s)
            == pre.coupon_view(p, c, s)
    &&& post.seller_coupons_index(caller) == Some(
        pre.seller_coupons(caller).push(CouponKeyView { product_id, code, seller: caller }),
    )
    &&& forall|s: Seq<char>| s != caller ==> #[trigger] post.seller_coupons_index(s)
        == pre.seller_coupons_index(s)
    &&& post.product_list == pre.product_list
    &&& post.products == pre.products
    &&& post.products_by_sellers == pre.products_by_sellers
    &&& post.buyer_addresses == pre.buyer_addresses
    &&& post.reviews == pre.reviews
    &&& post.my_reviews == pre.my_reviews
    &&& post.review_tracking == pre.review_tracking
}

/// How a successful `update_coupon` moves the store: the coupon under
/// `(product_id, code, caller)` has its discount and allowed uses replaced,
/// its key fields are carried over, and nothing else changes — in particular
/// no index changes.
pub open spec fn coupon_updated(
    pre: Contract,
    post: Contract,
    caller: Seq<char>,
    product_id: Seq<char>,
    code: Seq<char>,
    allowed_uses: u128,
    discount_amount: u128,
) -> bool {
    &&& post.coupon_view(product_id, code, caller) == Some(
        CouponView { code, product_id, discount_amount, allowed_uses, seller: caller },
    )
    &&& forall|p: Seq<char>, c: Seq<char>, s: Seq<char>|
        !(p == product_id && c == code && s == caller) ==> #[trigger] post.coupon_view(p, c, s)
            == pre.coupon_view(p, c, s)
    &&& post.product_list == pre.product_list
    &&& post.products == pre.products
    &&& post.products_by_sellers == pre.products_by_sellers
    &&& post.buyer_addresses == pre.buyer_addresses
    &&& post.coupons_by_seller == pre.coupons_by_seller
    &&& post.reviews == pre.reviews
    &&& post.my_reviews == pre.my_reviews
    &&& post.review_tracking == pre.review_tracking
}

/// How a successful `add_review` moves the store: one review value is
/// appended to the product's review index and an identical one to the
/// caller's personal review index (each created on first use), the tracking
/// map marks `(product_id, caller)` as reviewed, and nothing else changes.
pub open spec fn review_added(
    pre: Contract,
    post: Contract,
    caller: Seq<char>,
    product_id: Seq<char>,
    content: Seq<char>,
    star: u64,
) -> bool {
    let rv = ReviewView { product_id, reviewer: caller, content, star };
    &&& post.reviews_index(product_id) == Some(pre.product_reviews(product_id).push(rv))
    &&& forall|p: Seq<char>| p != product_id ==> #[trigger] post.reviews_index(p)
        == pre.reviews_index(p)
    &&& post.reviewer_index(caller) == Some(pre.reviewer_reviews(caller).push(rv))
    &&& forall|u: Seq<char>| u != caller ==> #[trigger] post.reviewer_index(u)
        == pre.reviewer_index(u)
    &&& post.reviewed(product_id, caller)
    &&& forall|p: Seq<char>, u: Seq<char>|
        !(p == product_id && u == caller) ==> #[trigger] post.reviewed(p, u) == pre.reviewed(p, u)
    &&& post.product_list == pre.product_list
    &&& post.products == pre.products
    &&& post.products_by_sellers == pre.products_by_sellers
    &&& post.buyer_addresses == pre.buyer_addresses
    &&& post.coupons == pre.coupons
    &&& post.coupons_by_seller == pre.coupons_by_seller
}

impl Contract {
    /// An empty store.
    pub fn init() -> (c: Contract)
        ensures
            c.is_empty_store(),
    {
        let c = Contract {
            product_list: Vec::new(),
            products: Table::new(),
            products_by_sellers: Table::new(),
            buyer_addresses: Table::new(),
            coupons: Table::new(),
            coupons_by_seller: Table::new(),
            reviews: Table::new(),
            my_reviews: Table::new(),
            review_tracking: Table::new(),
        };
        proof {
            assert(c.all_products() =~= Seq::<Seq<char>>::empty());
        }
        c
    }

    /// List a new product under `id`, owned by `caller`.
    ///
    /// Fails with `AlreadyExists` if and only if `id` is already taken, and
    /// then changes nothing. On success the stored record, the returned
    /// record, both indices and the global list are as [`product_created`]
    /// says.
    pub fn create_product(
        &mut self,
        caller: String,
        id: String,
        name: String,
        price: u128,
        description: String,
        img: String,
        is_active: bool,
    ) -> (r: Result<Product, MarketError>)
        ensures
            r is Err <==> old(self).create_product_err(id@) is Some,
            r matches Err(e) ==> e == old(self).create_product_err(id@)->Some_0 && *final(self)
                == *old(self),
            r is Ok ==> product_created(
                *old(self),
                *final(self),
                caller@,
                id@,
                name@,
                price,
                description@,
                img@,
                is_active,
            ),
            r matches Ok(p) ==> p@ == (ProductView {
                id: id@,
                name: name@,
                price,
                description: description@,
                img: img@,
                is_active,
                seller: caller@,
            }),
    {
        if self.products.contains(&id) {
            return Err(MarketError::AlreadyExists);
        }
        let new_product = Product { id, name, price, description, img, is_active, seller: caller };
        let returned = new_product.clone();

        // Seller index: append the id, creating the entry on first use.
        let seller_key = new_product.seller.clone();
        let ghost stored_ids: Option<Vec<String>> = self.products_by_sellers.map_get(seller_key@);
        let mut ids: Vec<String> = match self.products_by_sellers.get(&seller_key) {
            Some(v) => dup_vec(v),
            None => Vec::new(),
        };
        let ghost base_ids = ids;
        ids.push(new_product.id.clone());
        proof {
            lemma_deep_view_push(base_ids, ids, new_product.id);
            if stored_ids is Some {
                lemma_deep_view_congruent(base_ids, stored_ids->Some_0);
            }
        }

        let id_for_list = new_product.id.clone();
        self.products.upsert(new_product.id.clone(), new_product);
        self.products_by_sellers.upsert(seller_key, ids);
        self.product_list.push(id_for_list);
        proof {
            lemma_deep_view_push(old(self).product_list, self.product_list, id_for_list);
            assert(self.product_view(id@) == Some(
                ProductView {
                    id: id@,
                    name: name@,
                    price,
                    description: description@,
                    img: img@,
                    is_active,
                    seller: caller@,
                },
            ));
            assert(forall|k: Seq<char>|
                k != id@ ==> #[trigger] self.product_view(k) == old(self).product_view(k));
            assert(self.seller_index(caller@) == Some(
                old(self).seller_products(caller@).push(id@),
            ));
            assert(forall|s: Seq<char>|
                s != caller@ ==> #[trigger] self.seller_index(s) == old(self).seller_index(s));
            assert(self.all_products() == old(self).all_products().push(id@));
            assert(product_created(
                *old(self),
                *self,
                caller@,
                id@,
                name@,
                price,
                description@,
                img@,
                is_active,
            ));
        }
        Ok(returned)
    }

    /// Replace all mutable fields of the product under `id`.
    ///
    /// Fails with `NotFound` if and only if `id` is absent, else with
    /// `Unauthorized` if and only if `caller` is not the owning seller, and
    /// then changes nothing. On success the store moves as
    /// [`product_updated`] says.
    pub fn update_product(
        &mut self,
        caller: String,
        id: String,
        name: String,
        price: u128,
        description: String,
        img: String,
        is_active: bool,
    ) -> (r: Result<Product, MarketError>)
        ensures
            r is Err <==> old(self).update_product_err(caller@, id@) is Some,
            r matches Err(e) ==> e == old(self).update_product_err(caller@, id@)->Some_0
                && *final(self) == *old(self),
            r is Ok ==> product_updated(
                *old(self),
                *final(self),
                caller@,
                id@,
                name@,
                price,
                description@,
                img@,
                is_active,
            ),
            r matches Ok(p) ==> p@ == (ProductView {
                id: id@,
                name: name@,
                price,
                description: description@,
                img: img@,
                is_active,
                seller: caller@,
            }),
    {
        let seller = match self.products.get(&id) {
            Some(p) => p.seller.clone(),
            None => {
                return Err(MarketError::NotFound);
            },
        };
        if !seller.eq(&caller) {
            return Err(MarketError::Unauthorized);
        }
        let updated = Product { id, name, price, description, img, is_active, seller };
        let returned = updated.clone();
        self.products.upsert(updated.id.clone(), updated);
        proof {
            assert(self.product_view(id@) == Some(
                ProductView {
                    id: id@,
                    name: name@,
                    price,
                    description: description@,
                    img: img@,
                    is_active,
                    seller: caller@,
                },
            ));
            assert(forall|k: Seq<char>|
                k != id@ ==> #[trigger] self.product_view(k) == old(self).product_view(k));
        }
        Ok(returned)
    }

    /// Record a purchase of `product_id` by `caller` and authorize the value
    /// transfer it owes.
    ///
    /// Fails with `NotFound` if and only if the product is absent, else with
    /// `SelfDealing` if and only if the caller is its seller, else with
    /// `Inactive` if and only if the product is deactivated; any failure
    /// changes nothing. On success the store moves as [`purchase_recorded`]
    /// says and the returned [`Transfer`] moves exactly the product's price
    /// from the caller to the seller.
    pub fn buy_product(&mut self, caller: String, product_id: String) -> (r: Result<
        Transfer,
        MarketError,
    >)
        ensures
            r is Err <==> old(self).buy_product_err(caller@, product_id@) is Some,
            r matches Err(e) ==> e == old(self).buy_product_err(caller@, product_id@)->Some_0
                && *final(self) == *old(self),
            r is Ok ==> purchase_recorded(*old(self), *final(self), caller@, product_id@),
            r matches Ok(t) ==> t@ == (TransferView {
                from: caller@,
                to: old(self).product_seller(product_id@),
                amount: old(self).product_view(product_id@)->Some_0.price,
            }),
    {
        let (seller, price, active) = match self.products.get(&product_id) {
            Some(p) => (p.seller.clone(), p.price, p.is_active),
            None => {
                return Err(MarketError::NotFound);
            },
        };
        if seller.eq(&caller) {
            return Err(MarketError::SelfDealing);
        }
        if !active {
            return Err(MarketError::Inactive);
        }
        let ghost stored: Option<Vec<String>> = self.buyer_addresses.map_get(product_id@);
        let mut buyers: Vec<String> = match self.buyer_addresses.get(&product_id) {
            Some(v) => dup_vec(v),
            None => Vec::new(),
        };
        let ghost base = buyers;
        buyers.push(caller.clone());
        proof {
            lemma_deep_view_push(base, buyers, caller);
            if stored is Some {
                lemma_deep_view_congruent(base, stored->Some_0);
            }
        }
        self.buyer_addresses.upsert(product_id.clone(), buyers);
        proof {
            assert(self.buyers_index(product_id@) == Some(
                old(self).product_buyers(product_id@).push(caller@),
            ));
            assert(forall|p: Seq<char>|
                p != product_id@ ==> #[trigger] self.buyers_index(p) == old(self).buyers_index(p));
        }
        Ok(Transfer { from: caller, to: seller, amount: price })
    }

    /// Issue a coupon for `product_id` under `code`, keyed by
    /// `(product_id, code, caller)`.
    ///
    /// Fails with `NotFound` if and only if the product is absent, else with
    /// `Unauthorized` if and only if `caller` is not its seller, else with
    /// `AlreadyExists` if and only if the composite key is already taken;
    /// any failure changes nothing. On success the store moves as
    /// [`coupon_created`] says.
    pub fn create_coupon(
        &mut self,
        caller: String,
        product_id: String,
        code: String,
        allowed_uses: u128,
        discount_amount: u128,
    ) -> (r: Result<Coupon, MarketError>)
        ensures
            r is Err <==> old(self).create_coupon_err(caller@, product_id@, code@) is Some,
            r matches Err(e) ==> e == old(self).create_coupon_err(caller@, product_id@, code@)
                ->Some_0 && *final(self) == *old(self),
            r is Ok ==> coupon_created(
                *old(self),
                *final(self),
                caller@,
                product_id@,
                code@,
                allowed_uses,
                discount_amount,
            ),
            r matches Ok(c) ==> c@ == (CouponView {
                code: code@,
                product_id: product_id@,
                discount_amount,
                allowed_uses,
                seller: caller@,
            }),
    {
        let seller = match self.products.get(&product_id) {
            Some(p) => p.seller.clone(),
            None => {
                return Err(MarketError::NotFound);
            },
        };
        if !seller.eq(&caller) {
            return Err(MarketError::Unauthorized);
        }
        let key = CouponKey {
            product_id: product_id.clone(),
            code: code.clone(),
            seller: caller.clone(),
        };
        if self.coupons.contains(&key) {
            return Err(MarketError::AlreadyExists);
        }
        let new_coupon = Coupon { code, product_id, discount_amount, allowed_uses, seller: caller };
        let returned = new_coupon.clone();

        // Coupon index of the seller: append the key, creating the entry on
        // first use.
        let ghost stored: Option<Vec<CouponKey>> = self.coupons_by_seller.map_get(key.seller@);
        let mut keys: Vec<CouponKey> = match self.coupons_by_seller.get(&key.seller) {
            Some(v) => dup_vec(v),
            None => Vec::new(),
        };
        let ghost base = keys;
        keys.push(key.clone());
        proof {
            lemma_deep_view_push(base, keys, key);
            if stored is Some {
                lemma_deep_view_congruent(base, stored->Some_0);
            }
        }
        let seller_key = key.seller.clone();
        self.coupons.upsert(key, new_coupon);
        self.coupons_by_seller.upsert(seller_key, keys);
        proof {
            assert(self.coupon_view(product_id@, code@, caller@) == Some(
                CouponView {
                    code: code@,
                    product_id: product_id@,
                    discount_amount,
                    allowed_uses,
                    seller: caller@,
                },
            ));
            assert(forall|p: Seq<char>, c: Seq<char>, s: Seq<char>|
                !(p == product_id@ && c == code@ && s == caller@) ==> #[trigger] self.coupon_view(
                    p,
                    c,
                    s,
                ) == old(self).coupon_view(p, c, s));
            assert(self.seller_coupons_index(caller@) == Some(
                old(self).seller_coupons(caller@).push(
                    CouponKeyView { product_id: product_id@, code: code@, seller: caller@ },
                ),
            ));
            assert(forall|s: Seq<char>|
                s != caller@ ==> #[trigger] self.seller_coupons_index(s) == old(
                    self,
                ).seller_coupons_index(s));
        }
        Ok(returned)
    }

    /// Replace the discount and allowed uses of the coupon under
    /// `(product_id, code, caller)`.
    ///
    /// Fails with `NotFound` if and only if the product is absent, else with
    /// `Unauthorized` if and only if `caller` is not its seller, else with
    /// `NotFound` if and only if the coupon key does not exist yet; any
    /// failure changes nothing. On success the store moves as
    /// [`coupon_updated`] says.
    pub fn update_coupon(
        &mut self,
        caller: String,
        product_id: String,
        code: String,
        allowed_uses: u128,
        discount_amount: u128,
    ) -> (r: Result<Coupon, MarketError>)
        ensures
            r is Err <==> old(self).update_coupon_err(caller@, product_id@, code@) is Some,
            r matches Err(e) ==> e == old(self).update_coupon_err(caller@, product_id@, code@)
                ->Some_0 && *final(self) == *old(self),
            r is Ok ==> coupon_updated(
                *old(self),
                *final(self),
                caller@,
                product_id@,
                code@,
                allowed_uses,
                discount_amount,
            ),
            r matches Ok(c) ==> c@ == (CouponView {
                code: code@,
                product_id: product_id@,
                discount_amount,
                allowed_uses,
                seller: caller@,
            }),
    {
        let seller = match self.products.get(&product_id) {
            Some(p) => p.seller.clone(),
            None => {
                return Err(MarketError::NotFound);
            },
        };
        if !seller.eq(&caller) {
            return Err(MarketError::Unauthorized);
        }
        let key = CouponKey {
            product_id: product_id.clone(),
            code: code.clone(),
            seller: caller.clone(),
        };
        if !self.coupons.contains(&key) {
            return Err(MarketError::NotFound);
        }
        let updated = Coupon { code, product_id, discount_amount, allowed_uses, seller: caller };
        let returned = updated.clone();
        self.coupons.upsert(key, updated);
        proof {
            assert(self.coupon_view(product_id@, code@, caller@) == Some(
                CouponView {
                    code: code@,
                    product_id: product_id@,
                    discount_amount,
                    allowed_uses,
                    seller: caller@,
                },
            ));
            assert(forall|p: Seq<char>, c: Seq<char>, s: Seq<char>|
                !(p == product_id@ && c == code@ && s == caller@) ==> #[trigger] self.coupon_view(
                    p,
                    c,
                    s,
                ) == old(self).coupon_view(p, c, s));
        }
        Ok(returned)
    }

    /// The coupon under `(product_id, code, seller)`, if any.
    pub fn get_coupon_details(&self, product_id: String, code: String, seller: String) -> (r:
        Option<Coupon>)
        ensures
            r.deep_view() == self.coupon_view(product_id@, code@, seller@),
    {
        let key = CouponKey { product_id, code, seller };
        match self.coupons.get(&key) {
            Some(c) => Some(c.clone()),
            None => None,
        }
    }

    /// The keys of the coupons `seller` created, if it created any.
    pub fn get_seller_coupons(&self, seller: String) -> (r: Option<Vec<CouponKey>>)
        ensures
            r.deep_view() == self.seller_coupons_index(seller@),
    {
        match self.coupons_by_seller.get(&seller) {
            Some(v) => {
                let d = dup_vec(v);
                proof {
                    lemma_deep_view_congruent(d, *v);
                }
                Some(d)
            },
            None => None,
        }
    }

    /// The buyers of `product_id`, if it has been purchased at all.
    pub fn get_buyer_addresses(&self, product_id: String) -> (r: Option<Vec<String>>)
        ensures
            r.deep_view() == self.buyers_index(product_id@),
    {
        match self.buyer_addresses.get(&product_id) {
            Some(v) => {
                let d = dup_vec(v);
                proof {
                    lemma_deep_view_congruent(d, *v);
                }
                Some(d)
            },
            None => None,
        }
    }

    /// Record `caller`'s one review of `product_id`.
    ///
    /// Fails with `NotFound` if and only if the product is absent, else with
    /// `SelfDealing` if and only if the caller is its seller, else with
    /// `AlreadyReviewed` if and only if the caller has already reviewed it;
    /// any failure changes nothing. On success the store moves as
    /// [`review_added`] says.
    pub fn add_review(&mut self, caller: String, product_id: String, content: String, star: u64)
        -> (r: Result<bool, MarketError>)
        ensures
            r is Err <==> old(self).add_review_err(caller@, product_id@) is Some,
            r matches Err(e) ==> e == old(self).add_review_err(caller@, product_id@)->Some_0
                && *final(self) == *old(self),
            r is Ok ==> review_added(
                *old(self),
                *final(self),
                caller@,
                product_id@,
                content@,
                star,
            ),
            r matches Ok(flag) ==> flag,
    {
        let seller = match self.products.get(&product_id) {
            Some(p) => p.seller.clone(),
            None => {
                return Err(MarketError::NotFound);
            },
        };
        if seller.eq(&caller) {
            return Err(MarketError::SelfDealing);
        }
        let tracking_key = ReviewTrackingKey {
            product_id: product_id.clone(),
            reviewer: caller.clone(),
        };
        let already = match self.review_tracking.get(&tracking_key) {
            Some(b) => *b,
            None => false,
        };
        if already {
            return Err(MarketError::AlreadyReviewed);
        }
        let new_review = Review {
            product_id: product_id.clone(),
            reviewer: caller.clone(),
            content,
            star,
        };
        let review_copy = new_review.clone();
        let ghost review_val = new_review;

        // Review index of the product: append, creating the entry on first
        // review.
        let ghost stored_rs: Option<Vec<Review>> = self.reviews.map_get(product_id@);
        let mut product_rs: Vec<Review> = match self.reviews.get(&product_id) {
            Some(v) => dup_vec(v),
            None => Vec::new(),
        };
        let ghost base_rs = product_rs;
        product_rs.push(new_review);
        proof {
            lemma_deep_view_push(base_rs, product_rs, review_val);
            if stored_rs is Some {
                lemma_deep_view_congruent(base_rs, stored_rs->Some_0);
            }
        }
        self.reviews.upsert(product_id.clone(), product_rs);

        // Personal review index of the author: append an identical copy,
        // creating the entry on first review.
        let ghost stored_mine: Option<Vec<Review>> = self.my_reviews.map_get(caller@);
        let mut mine: Vec<Review> = match self.my_reviews.get(&caller) {
            Some(v) => dup_vec(v),
            None => Vec::new(),
        };
        let ghost base_mine = mine;
        mine.push(review_copy);
        proof {
            lemma_deep_view_push(base_mine, mine, review_val);
            if stored_mine is Some {
                lemma_deep_view_congruent(base_mine, stored_mine->Some_0);
            }
        }
        self.my_reviews.upsert(caller.clone(), mine);

        // Mark the pair as reviewed.
        self.review_tracking.upsert(tracking_key, true);
        proof {
            let rv = ReviewView { product_id: product_id@, reviewer: caller@, content: content@, star };
            assert(self.reviews_index(product_id@) == Some(
                old(self).product_reviews(product_id@).push(rv),
            ));
            assert(forall|p: Seq<char>|
                p != product_id@ ==> #[trigger] self.reviews_index(p) == old(self).reviews_index(
                    p,
                ));
            assert(self.reviewer_index(caller@) == Some(
                old(self).reviewer_reviews(caller@).push(rv),
            ));
            assert(forall|u: Seq<char>|
                u != caller@ ==> #[trigger] self.reviewer_index(u) == old(self).reviewer_index(u));
            assert(self.reviewed(product_id@, caller@));
            assert(forall|p: Seq<char>, u: Seq<char>|
                !(p == product_id@ && u == caller@) ==> #[trigger] self.reviewed(p, u) == old(
                    self,
                ).reviewed(p, u));
        }
        Ok(true)
    }

    /// The reviews of `product_id`, if it has any.
    pub fn get_reviews(&self, product_id: String) -> (r: Option<Vec<Review>>)
        ensures
            r.deep_view() == self.reviews_index(product_id@),
    {
        match self.reviews.get(&product_id) {
            Some(v) => {
                let d = dup_vec(v);
                proof {
                    lemma_deep_view_congruent(d, *v);
                }
                Some(d)
            },
            None => None,
        }
    }

    /// The reviews the given author wrote, if any.
    pub fn get_my_reviews(&self, reviewer: String) -> (r: Option<Vec<Review>>)
        ensures
            r.deep_view() == self.reviewer_index(reviewer@),
    {
        match self.my_reviews.get(&reviewer) {
            Some(v) => {
                let d = dup_vec(v);
                proof {
                    lemma_deep_view_congruent(d, *v);
                }
                Some(d)
            },
            None => None,
        }
    }

    /// All product ids, in creation order.
    pub fn get_all_products(&self) -> (r: Vec<String>)
        ensures
            r.deep_view() == self.all_products(),
    {
        let r = dup_vec(&self.product_list);
        proof {
            lemma_deep_view_congruent(r, self.product_list);
        }
        r
    }

    /// The product stored under `product_id`, if any.
    pub fn get_product(&self, product_id: String) -> (r: Option<Product>)
        ensures
            r.deep_view() == self.product_view(product_id@),
    {
        match self.products.get(&product_id) {
            Some(p) => Some(p.clone()),
            None => None,
        }
    }

    /// The ids of the products `seller` created, if it created any.
    pub fn get_seller_product(&self, seller: String) -> (r: Option<Vec<String>>)
        ensures
            r.deep_view() == self.seller_index(seller@),
    {
        match self.products_by_sellers.get(&seller) {
            Some(v) => {
                let d = dup_vec(v);
                proof {
                    lemma_deep_view_congruent(d, *v);
                }
                Some(d)
            },
            None => None,
        }
    }
    /// The display projection of the product under `product_id`: every field
    /// but the price. The product must exist; an embedding that cannot
    /// guarantee that checks first and treats absence as its own failure.
    pub fn get_product_json(&self, product_id: String) -> (r: ProductJson)
        requires
            self.has_product(product_id@),
        ensures
            ({
                let p = self.product_view(product_id@)->Some_0;
                r@ == (ProductJsonView {
                    id: p.id,
                    name: p.name,
                    description: p.description,
                    img: p.img,
                    is_active: p.is_active,
                    seller: p.seller,
                })
            }),
    {
        match self.products.get(&product_id) {
            Some(p) => ProductJson {
                id: p.id.clone(),
                name: p.name.clone(),
                description: p.description.clone(),
                img: p.img.clone(),
                is_active: p.is_active,
                seller: p.seller.clone(),
            },
            None => unreached(),
        }
    }
}

impl Default for Contract {
    /// An empty store.
    fn default() -> (c: Self)
        ensures
            c.is_empty_store(),
    {
        Contract::init()
    }
}

} // verus!
