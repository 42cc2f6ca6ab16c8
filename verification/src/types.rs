//! The entities of the marketplace, their mathematical views, and the error
//! kinds of the store.
//!
//! Identities (sellers, buyers, review authors) are opaque comparable tokens,
//! carried as strings; prices and discounts are unsigned 128-bit amounts in
//! the smallest currency unit. Each entity has a view struct over `Seq<char>`
//! that the operation contracts speak of.

use crate::table::DupValue;
use crate::table::TableKey;
use vstd::prelude::*;

verus! {

/// Why a marketplace operation was refused. Every failure aborts the whole
/// operation with zero side effects on the store.
#[derive(Clone, Copy, Debug, PartialEq, Eq, Structural)]
pub enum MarketError {
    /// The referenced entity is absent.
    NotFound,
    /// A create found its identity already taken.
    AlreadyExists,
    /// The caller does not own the record it tried to change.
    Unauthorized,
    /// The caller would be both counterparties of a purchase or review.
    SelfDealing,
    /// The operation targets a deactivated product.
    Inactive,
    /// The caller has already reviewed this product.
    AlreadyReviewed,
}

impl MarketError {
    /// The human-readable message that belongs to this error kind.
    pub open spec fn spec_message(self) -> Seq<char> {
        match self {
            MarketError::NotFound => "the referenced entity does not exist"@,
            MarketError::AlreadyExists => "this identity is already taken"@,
            MarketError::Unauthorized => "the caller does not own this record"@,
            MarketError::SelfDealing => "the caller cannot deal with itself"@,
            MarketError::Inactive => "this product is inactive"@,
            MarketError::AlreadyReviewed => "the caller has already reviewed this product"@,
        }
    }

    /// The message surfaced to the caller.
    pub fn message(&self) -> (m: &'static str)
        ensures
            m@ == self.spec_message(),
    {
        match self {
            MarketError::NotFound => "the referenced entity does not exist",
            MarketError::AlreadyExists => "this identity is already taken",
            MarketError::Unauthorized => "the caller does not own this record",
            MarketError::SelfDealing => "the caller cannot deal with itself",
            MarketError::Inactive => "this product is inactive",
            MarketError::AlreadyReviewed => "the caller has already reviewed this product",
        }
    }
}

/// A listed product. `id` is globally unique and, like `seller`, immutable
/// after creation; all other fields may be replaced by the owning seller.
pub struct Product {
    pub id: String,
    pub name: String,
    pub price: u128,
    pub description: String,
    pub img: String,
    pub is_active: bool,
    pub seller: String,
}

/// The view of a [`Product`].
#[verifier::ext_equal]
pub struct ProductView {
    pub id: Seq<char>,
    pub name: Seq<char>,
    pub price: u128,
    pub description: Seq<char>,
    pub img: Seq<char>,
    pub is_active: bool,
    pub seller: Seq<char>,
}

impl View for Product {
    type V = ProductView;

    open spec fn view(&self) -> ProductView {
        ProductView {
            id: self.id@,
            name: self.name@,
            price: self.price,
            description: self.description@,
            img: self.img@,
            is_active: self.is_active,
            seller: self.seller@,
        }
    }
}

impl DeepView for Product {
    type V = ProductView;

    open spec fn deep_view(&self) -> ProductView {
        self@
    }
}

impl Clone for Product {
    fn clone(&self) -> (res: Self)
        ensures
            res == *self,
    {
        Product {
            id: self.id.clone(),
            name: self.name.clone(),
            price: self.price,
            description: self.description.clone(),
            img: self.img.clone(),
            is_active: self.is_active,
            seller: self.seller.clone(),
        }
    }
}

/// The composite identity of a coupon: two coupons differ if any of the
/// product, the code, or the seller differs.
pub struct CouponKey {
    pub product_id: String,
    pub code: String,
    pub seller: String,
}

/// The view of a [`CouponKey`].
#[verifier::ext_equal]
pub struct CouponKeyView {
    pub product_id: Seq<char>,
    pub code: Seq<char>,
    pub seller: Seq<char>,
}

impl View for CouponKey {
    type V = CouponKeyView;

    open spec fn view(&self) -> CouponKeyView {
        CouponKeyView { product_id: self.product_id@, code: self.code@, seller: self.seller@ }
    }
}

impl DeepView for CouponKey {
    type V = CouponKeyView;

    open spec fn deep_view(&self) -> CouponKeyView {
        self@
    }
}

impl Clone for CouponKey {
    fn clone(&self) -> (res: Self)
        ensures
            res == *self,
    {
        CouponKey {
            product_id: self.product_id.clone(),
            code: self.code.clone(),
            seller: self.seller.clone(),
        }
    }
}

impl DupValue for CouponKey {
    fn dup(&self) -> (r: Self) {
        self.clone()
    }
}

impl TableKey for CouponKey {
    fn key_eq(&self, other: &Self) -> (r: bool) {
        self.product_id.eq(&other.product_id) && self.code.eq(&other.code) && self.seller.eq(
            &other.seller,
        )
    }
}

/// A seller-issued discount coupon. `allowed_uses` of zero denotes an
/// invalid or exhausted coupon; the field is stored as informational
/// metadata and no redemption path decrements it.
pub struct Coupon {
    pub code: String,
    pub product_id: String,
    pub discount_amount: u128,
    pub allowed_uses: u128,
    pub seller: String,
}

/// The view of a [`Coupon`].
#[verifier::ext_equal]
pub struct CouponView {
    pub code: Seq<char>,
    pub product_id: Seq<char>,
    pub discount_amount: u128,
    pub allowed_uses: u128,
    pub seller: Seq<char>,
}

impl View for Coupon {
    type V = CouponView;

    open spec fn view(&self) -> CouponView {
        CouponView {
            code: self.code@,
            product_id: self.product_id@,
            discount_amount: self.discount_amount,
            allowed_uses: self.allowed_uses,
            seller: self.seller@,
        }
    }
}

impl DeepView for Coupon {
    type V = CouponView;

    open spec fn deep_view(&self) -> CouponView {
        self@
    }
}

impl Clone for Coupon {
    fn clone(&self) -> (res: Self)
        ensures
            res == *self,
    {
        Coupon {
            code: self.code.clone(),
            product_id: self.product_id.clone(),
            discount_amount: self.discount_amount,
            allowed_uses: self.allowed_uses,
            seller: self.seller.clone(),
        }
    }
}

/// The composite key of the review-tracking map: one review per
/// `(product, author)` pair.
pub struct ReviewTrackingKey {
    pub product_id: String,
    pub reviewer: String,
}

/// The view of a [`ReviewTrackingKey`].
#[verifier::ext_equal]
pub struct ReviewTrackingKeyView {
    pub product_id: Seq<char>,
    pub reviewer: Seq<char>,
}

impl View for ReviewTrackingKey {
    type V = ReviewTrackingKeyView;

    open spec fn view(&self) -> ReviewTrackingKeyView {
        ReviewTrackingKeyView { product_id: self.product_id@, reviewer: self.reviewer@ }
    }
}

impl DeepView for ReviewTrackingKey {
    type V = ReviewTrackingKeyView;

    open spec fn deep_view(&self) -> ReviewTrackingKeyView {
        self@
    }
}

impl Clone for ReviewTrackingKey {
    fn clone(&self) -> (res: Self)
        ensures
            res == *self,
    {
        ReviewTrackingKey {
            product_id: self.product_id.clone(),
            reviewer: self.reviewer.clone(),
        }
    }
}

impl TableKey for ReviewTrackingKey {
    fn key_eq(&self, other: &Self) -> (r: bool) {
        self.product_id.eq(&other.product_id) && self.reviewer.eq(&other.reviewer)
    }
}

/// One buyer's review of one product, created once and never mutated.
pub struct Review {
    pub product_id: String,
    pub reviewer: String,
    pub content: String,
    pub star: u64,
}

/// The view of a [`Review`].
#[verifier::ext_equal]
pub struct ReviewView {
    pub product_id: Seq<char>,
    pub reviewer: Seq<char>,
    pub content: Seq<char>,
    pub star: u64,
}

impl View for Review {
    type V = ReviewView;

    open spec fn view(&self) -> ReviewView {
        ReviewView {
            product_id: self.product_id@,
            reviewer: self.reviewer@,
            content: self.content@,
            star: self.star,
        }
    }
}

impl DeepView for Review {
    type V = ReviewView;

    open spec fn deep_view(&self) -> ReviewView {
        self@
    }
}

impl Clone for Review {
    fn clone(&self) -> (res: Self)
        ensures
            res == *self,
    {
        Review {
            product_id: self.product_id.clone(),
            reviewer: self.reviewer.clone(),
            content: self.content.clone(),
            star: self.star,
        }
    }
}

impl DupValue for Review {
    fn dup(&self) -> (r: Self) {
        self.clone()
    }
}

/// An authorized value transfer: on a successful purchase the store instructs
/// the embedding environment to move `amount` from `from` to `to`.
pub struct Transfer {
    pub from: String,
    pub to: String,
    pub amount: u128,
}

/// The view of a [`Transfer`].
#[verifier::ext_equal]
pub struct TransferView {
    pub from: Seq<char>,
    pub to: Seq<char>,
    pub amount: u128,
}

impl View for Transfer {
    type V = TransferView;

    open spec fn view(&self) -> TransferView {
        TransferView { from: self.from@, to: self.to@, amount: self.amount }
    }
}

impl DeepView for Transfer {
    type V = TransferView;

    open spec fn deep_view(&self) -> TransferView {
        self@
    }
}

impl Clone for Transfer {
    fn clone(&self) -> (res: Self)
        ensures
            res == *self,
    {
        Transfer { from: self.from.clone(), to: self.to.clone(), amount: self.amount }
    }
}

/// The display projection of a product: every field but the price.
pub struct ProductJson {
    pub id: String,
    pub name: String,
    pub description: String,
    pub img: String,
    pub is_active: bool,
    pub seller: String,
}

/// The view of a [`ProductJson`].
#[verifier::ext_equal]
pub struct ProductJsonView {
    pub id: Seq<char>,
    pub name: Seq<char>,
    pub description: Seq<char>,
    pub img: Seq<char>,
    pub is_active: bool,
    pub seller: Seq<char>,
}

impl View for ProductJson {
    type V = ProductJsonView;

    open spec fn view(&self) -> ProductJsonView {
        ProductJsonView {
            id: self.id@,
            name: self.name@,
            description: self.description@,
            img: self.img@,
            is_active: self.is_active,
            seller: self.seller@,
        }
    }
}

/// Names the sections of the store, for an embedding that keys each
/// section's persistence by a stable tag.
#[derive(Clone, Copy, Debug, PartialEq, Eq)]
pub enum StorageKey {
    Product,
    ProductBySeller,
    BuyerAddresses,
    Coupons,
    CouponsBySeller,
    Reviews,
    MyReviews,
    ReviewTracking,
}

} // verus!
