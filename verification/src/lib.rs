//! State layer of a peer-to-peer marketplace: sellers list products, buyers
//! purchase them, sellers issue discount coupons, and buyers leave one review
//! per product.
//!
//! The store keeps primary records (products, coupons) together with
//! denormalized indices (seller to product ids, product to buyers, seller to
//! coupon keys, product and review author to reviews) and a review-tracking map.
//! Every mutating operation validates fully before writing, so a failed
//! operation leaves the store untouched, and every successful operation
//! updates the primary record and its indices together.
//!
//! The caller's identity is passed explicitly into each operation; value
//! transfer on purchase is merely authorized here (the returned [`types::Transfer`]
//! says who owes whom how much) and carried out by the embedding environment.

pub mod laws;
pub mod market;
pub mod table;
pub mod types;
