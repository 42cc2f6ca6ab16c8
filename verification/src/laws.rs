//! The laws of the store, stated over the same spec functions and transition
//! predicates the operation contracts use, and proved once and for all.

use crate::market::coupon_created;
use crate::market::coupon_updated;
use crate::market::product_created;
use crate::market::product_updated;
use crate::market::purchase_recorded;
use crate::market::review_added;
use crate::market::Contract;
use crate::types::CouponKeyView;
use crate::types::MarketError;
use crate::types::ProductView;
use vstd::prelude::*;

verus! {

/// Cross-referential consistency of the store: no index entry dangles, every
/// record agrees with the key it is stored under, and a coupon's seller owns
/// the product it discounts. The empty store is consistent and every
/// operation preserves consistency, so it holds of every reachable store.
pub open spec fn store_consistent(st: Contract) -> bool {
    // A stored product record carries the id it is stored under.
    &&& forall|id: Seq<char>| #[trigger] st.product_view(id) matches Some(p) ==> p.id == id
    // Every id in a seller's index names an existing product.
    &&& forall|s: Seq<char>, i: int|
        0 <= i < st.seller_products(s).len() ==> st.has_product(#[trigger] st.seller_products(s)[i])
    // Every id in the global product list names an existing product.
    &&& forall|i: int| 0 <= i < st.all_products().len() ==> st.has_product(
        #[trigger] st.all_products()[i],
    )
    // A buyer index entry exists only for an existing product.
    &&& forall|pid: Seq<char>| #[trigger] st.buyers_index(pid) is Some ==> st.has_product(pid)
    // A review index entry exists only for an existing product.
    &&& forall|pid: Seq<char>| #[trigger] st.reviews_index(pid) is Some ==> st.has_product(pid)
    // A reviewed mark exists only for an existing product.
    &&& forall|pid: Seq<char>, u: Seq<char>| #[trigger] st.reviewed(pid, u) ==> st.has_product(pid)
    // A stored coupon references an existing product, owned by the coupon's
    // seller, and carries the key it is stored under.
    &&& forall|p: Seq<char>, c: Seq<char>, s: Seq<char>| #[trigger] st.coupon_view(p, c, s) matches
        Some(cv) ==> st.has_product(p) && st.product_seller(p) == s && cv.product_id == p
            && cv.code == c && cv.seller == s
    // Every key in a seller's coupon index is bound in the coupon registry
    // and names that seller.
    &&& forall|s: Seq<char>, i: int|
        0 <= i < st.seller_coupons(s).len() ==> {
            let k = #[trigger] st.seller_coupons(s)[i];
            st.coupon_view(k.product_id, k.code, k.seller) is Some && k.seller == s
        }
}

/// The empty store is consistent.
pub proof fn lemma_empty_store_consistent(st: Contract)
    requires
        st.is_empty_store(),
    ensures
        store_consistent(st),
{
}

/// Reading a store whose product sections are untouched.
proof fn lemma_product_clauses_unchanged(pre: Contract, post: Contract)
    requires
        store_consistent(pre),
        post.products == pre.products,
        post.products_by_sellers == pre.products_by_sellers,
        post.product_list == pre.product_list,
    ensures
        forall|k: Seq<char>| #[trigger] post.product_view(k) == pre.product_view(k),
        forall|k: Seq<char>| #[trigger] post.product_view(k) is Some ==> post.product_view(
            k,
        )->Some_0.id == k,
        forall|s: Seq<char>, i: int|
            0 <= i < post.seller_products(s).len() ==> post.has_product(
                #[trigger] post.seller_products(s)[i],
            ),
        forall|i: int| 0 <= i < post.all_products().len() ==> post.has_product(
            #[trigger] post.all_products()[i],
        ),
{
    assert forall|k: Seq<char>| #[trigger] post.product_view(k) is Some implies post.product_view(
        k,
    )->Some_0.id == k by {
        assert(post.product_view(k) == pre.product_view(k));
    }
    assert forall|s: Seq<char>, i: int| #![trigger post.seller_products(s)[i]]
        0 <= i < post.seller_products(s).len() implies post.has_product(
        post.seller_products(s)[i],
    ) by {
        assert(post.seller_index(s) == pre.seller_index(s));
        let k = pre.seller_products(s)[i];
        assert(pre.has_product(k));
        assert(post.product_view(k) == pre.product_view(k));
    }
    assert forall|i: int| #![trigger post.all_products()[i]]
        0 <= i < post.all_products().len() implies post.has_product(post.all_products()[i]) by {
        assert(post.all_products() == pre.all_products());
        let k = pre.all_products()[i];
        assert(pre.has_product(k));
        assert(post.product_view(k) == pre.product_view(k));
    }
}

/// A buyer index that is untouched stays free of dangling entries.
proof fn lemma_buyer_clause_unchanged(pre: Contract, post: Contract)
    requires
        store_consistent(pre),
        post.buyer_addresses == pre.buyer_addresses,
        forall|k: Seq<char>| pre.has_product(k) ==> #[trigger] post.has_product(k),
    ensures
        forall|pid: Seq<char>| #[trigger] post.buyers_index(pid) is Some ==> post.has_product(pid),
{
    assert forall|pid: Seq<char>| #[trigger] post.buyers_index(pid) is Some implies
        post.has_product(pid) by {
        assert(post.buyers_index(pid) == pre.buyers_index(pid));
        assert(pre.has_product(pid));
    }
}

/// A review index that is untouched stays free of dangling entries.
proof fn lemma_review_clause_unchanged(pre: Contract, post: Contract)
    requires
        store_consistent(pre),
        post.reviews == pre.reviews,
        forall|k: Seq<char>| pre.has_product(k) ==> #[trigger] post.has_product(k),
    ensures
        forall|pid: Seq<char>| #[trigger] post.reviews_index(pid) is Some ==> post.has_product(pid),
{
    assert forall|pid: Seq<char>| #[trigger] post.reviews_index(pid) is Some implies
        post.has_product(pid) by {
        assert(post.reviews_index(pid) == pre.reviews_index(pid));
        assert(pre.has_product(pid));
    }
}

/// A tracking map that is untouched stays free of dangling marks.
proof fn lemma_tracking_clause_unchanged(pre: Contract, post: Contract)
    requires
        store_consistent(pre),
        post.review_tracking == pre.review_tracking,
        forall|k: Seq<char>| pre.has_product(k) ==> #[trigger] post.has_product(k),
    ensures
        forall|pid: Seq<char>, u: Seq<char>| #[trigger] post.reviewed(pid, u) ==> post.has_product(
            pid,
        ),
{
    assert forall|pid: Seq<char>, u: Seq<char>| #[trigger] post.reviewed(pid, u) implies
        post.has_product(pid) by {
        assert(post.reviewed(pid, u) == pre.reviewed(pid, u));
        assert(pre.has_product(pid));
    }
}

/// Coupon sections that are untouched stay consistent, as long as the
/// products they reference are kept with their sellers.
proof fn lemma_coupon_clauses_unchanged(pre: Contract, post: Contract)
    requires
        store_consistent(pre),
        post.coupons == pre.coupons,
        post.coupons_by_seller == pre.coupons_by_seller,
        forall|k: Seq<char>| pre.has_product(k) ==> #[trigger] post.has_product(k),
        forall|k: Seq<char>| pre.has_product(k) ==> #[trigger] post.product_seller(k)
            == pre.product_seller(k),
    ensures
        forall|p: Seq<char>, c: Seq<char>, s: Seq<char>| #[trigger] post.coupon_view(p, c, s) matches
            Some(cv) ==> post.has_product(p) && post.product_seller(p) == s && cv.product_id == p
                && cv.code == c && cv.seller == s,
        forall|s: Seq<char>, i: int|
            0 <= i < post.seller_coupons(s).len() ==> {
                let k = #[trigger] post.seller_coupons(s)[i];
                post.coupon_view(k.product_id, k.code, k.seller) is Some && k.seller == s
            },
{
    assert forall|p: Seq<char>, c: Seq<char>, s: Seq<char>| #[trigger] post.coupon_view(
        p,
        c,
        s,
    ) is Some implies post.has_product(p) && post.product_seller(p) == s && post.coupon_view(
        p,
        c,
        s,
    )->Some_0.product_id == p && post.coupon_view(p, c, s)->Some_0.code == c && post.coupon_view(
        p,
        c,
        s,
    )->Some_0.seller == s by {
        assert(post.coupon_view(p, c, s) == pre.coupon_view(p, c, s));
        assert(pre.has_product(p));
        assert(post.has_product(p));
        assert(post.product_seller(p) == pre.product_seller(p));
    }
    assert forall|s: Seq<char>, i: int| #![trigger post.seller_coupons(s)[i]]
        0 <= i < post.seller_coupons(s).len() implies post.coupon_view(
        post.seller_coupons(s)[i].product_id,
        post.seller_coupons(s)[i].code,
        post.seller_coupons(s)[i].seller,
    ) is Some && post.seller_coupons(s)[i].seller == s by {
        assert(post.seller_coupons_index(s) == pre.seller_coupons_index(s));
        let k = pre.seller_coupons(s)[i];
        assert(post.seller_coupons(s)[i] == k);
        assert(pre.coupon_view(k.product_id, k.code, k.seller) is Some && k.seller == s);
        assert(post.coupon_view(k.product_id, k.code, k.seller) == pre.coupon_view(
            k.product_id,
            k.code,
            k.seller,
        ));
    }
}

/// Creating a product preserves store consistency.
pub proof fn lemma_create_product_consistent(
    pre: Contract,
    post: Contract,
    caller: Seq<char>,
    id: Seq<char>,
    name: Seq<char>,
    price: u128,
    description: Seq<char>,
    img: Seq<char>,
    is_active: bool,
)
    requires
        store_consistent(pre),
        pre.create_product_err(id) is None,
        product_created(pre, post, caller, id, name, price, description, img, is_active),
    ensures
        store_consistent(post),
{
    assert forall|k: Seq<char>| pre.has_product(k) implies #[trigger] post.has_product(k) by {
        if k != id {
            assert(post.product_view(k) == pre.product_view(k));
        }
    }
    assert forall|k: Seq<char>| pre.has_product(k) implies #[trigger] post.product_seller(k)
        == pre.product_seller(k) by {
        assert(k != id);
        assert(post.product_view(k) == pre.product_view(k));
    }
    assert forall|k: Seq<char>| #[trigger] post.product_view(k) is Some implies post.product_view(
        k,
    )->Some_0.id == k by {
        if k != id {
            assert(post.product_view(k) == pre.product_view(k));
        }
    }
    assert forall|s: Seq<char>, i: int| #![trigger post.seller_products(s)[i]]
        0 <= i < post.seller_products(s).len() implies post.has_product(
        post.seller_products(s)[i],
    ) by {
        if s == caller {
            assert(post.seller_products(s) == pre.seller_products(s).push(id));
            if i < pre.seller_products(s).len() {
                assert(post.seller_products(s)[i] == pre.seller_products(s)[i]);
                assert(pre.has_product(pre.seller_products(s)[i]));
            } else {
                assert(post.seller_products(s)[i] == id);
            }
        } else {
            assert(post.seller_index(s) == pre.seller_index(s));
            assert(pre.has_product(pre.seller_products(s)[i]));
        }
    }
    assert forall|i: int| #![trigger post.all_products()[i]]
        0 <= i < post.all_products().len() implies post.has_product(post.all_products()[i]) by {
        assert(post.all_products() == pre.all_products().push(id));
        if i < pre.all_products().len() {
            assert(post.all_products()[i] == pre.all_products()[i]);
            assert(pre.has_product(pre.all_products()[i]));
        } else {
            assert(post.all_products()[i] == id);
        }
    }
    lemma_buyer_clause_unchanged(pre, post);
    lemma_review_clause_unchanged(pre, post);
    lemma_tracking_clause_unchanged(pre, post);
    lemma_coupon_clauses_unchanged(pre, post);
}

/// Updating a product preserves store consistency.
pub proof fn lemma_update_product_consistent(
    pre: Contract,
    post: Contract,
    caller: Seq<char>,
    id: Seq<char>,
    name: Seq<char>,
    price: u128,
    description: Seq<char>,
    img: Seq<char>,
    is_active: bool,
)
    requires
        store_consistent(pre),
        pre.update_product_err(caller, id) is None,
        product_updated(pre, post, caller, id, name, price, description, img, is_active),
    ensures
        store_consistent(post),
{
    assert forall|k: Seq<char>| pre.has_product(k) implies #[trigger] post.has_product(k) by {
        if k != id {
            assert(post.product_view(k) == pre.product_view(k));
        }
    }
    assert forall|k: Seq<char>| pre.has_product(k) implies #[trigger] post.product_seller(k)
        == pre.product_seller(k) by {
        if k != id {
            assert(post.product_view(k) == pre.product_view(k));
        }
    }
    assert forall|k: Seq<char>| #[trigger] post.product_view(k) is Some implies post.product_view(
        k,
    )->Some_0.id == k by {
        if k != id {
            assert(post.product_view(k) == pre.product_view(k));
        }
    }
    assert forall|s: Seq<char>, i: int| #![trigger post.seller_products(s)[i]]
        0 <= i < post.seller_products(s).len() implies post.has_product(
        post.seller_products(s)[i],
    ) by {
        assert(post.seller_index(s) == pre.seller_index(s));
        assert(post.seller_products(s)[i] == pre.seller_products(s)[i]);
        assert(pre.has_product(pre.seller_products(s)[i]));
    }
    assert forall|i: int| #![trigger post.all_products()[i]]
        0 <= i < post.all_products().len() implies post.has_product(post.all_products()[i]) by {
        assert(post.all_products() == pre.all_products());
        assert(pre.has_product(pre.all_products()[i]));
    }
    lemma_buyer_clause_unchanged(pre, post);
    lemma_review_clause_unchanged(pre, post);
    lemma_tracking_clause_unchanged(pre, post);
    lemma_coupon_clauses_unchanged(pre, post);
}

/// Recording a purchase preserves store consistency.
pub proof fn lemma_buy_product_consistent(
    pre: Contract,
    post: Contract,
    caller: Seq<char>,
    product_id: Seq<char>,
)
    requires
        store_consistent(pre),
        pre.buy_product_err(caller, product_id) is None,
        purchase_recorded(pre, post, caller, product_id),
    ensures
        store_consistent(post),
{
    lemma_product_clauses_unchanged(pre, post);
    assert forall|k: Seq<char>| pre.has_product(k) implies #[trigger] post.has_product(k) by {
        assert(post.product_view(k) == pre.product_view(k));
    }
    assert forall|k: Seq<char>| pre.has_product(k) implies #[trigger] post.product_seller(k)
        == pre.product_seller(k) by {
        assert(post.product_view(k) == pre.product_view(k));
    }
    assert forall|pid: Seq<char>| #[trigger] post.buyers_index(pid) is Some implies
        post.has_product(pid) by {
        if pid == product_id {
            assert(pre.has_product(product_id));
        } else {
            assert(post.buyers_index(pid) == pre.buyers_index(pid));
            assert(pre.has_product(pid));
        }
    }
    lemma_review_clause_unchanged(pre, post);
    lemma_tracking_clause_unchanged(pre, post);
    lemma_coupon_clauses_unchanged(pre, post);
}

/// Creating a coupon preserves store consistency.
pub proof fn lemma_create_coupon_consistent(
    pre: Contract,
    post: Contract,
    caller: Seq<char>,
    product_id: Seq<char>,
    code: Seq<char>,
    allowed_uses: u128,
    discount_amount: u128,
)
    requires
        store_consistent(pre),
        pre.create_coupon_err(caller, product_id, code) is None,
        coupon_created(pre, post, caller, product_id, code, allowed_uses, discount_amount),
    ensures
        store_consistent(post),
{
    lemma_product_clauses_unchanged(pre, post);
    assert forall|k: Seq<char>| pre.has_product(k) implies #[trigger] post.has_product(k) by {
        assert(post.product_view(k) == pre.product_view(k));
    }
    assert forall|k: Seq<char>| pre.has_product(k) implies #[trigger] post.product_seller(k)
        == pre.product_seller(k) by {
        assert(post.product_view(k) == pre.product_view(k));
    }
    lemma_buyer_clause_unchanged(pre, post);
    lemma_review_clause_unchanged(pre, post);
    lemma_tracking_clause_unchanged(pre, post);
    assert forall|p: Seq<char>, c: Seq<char>, s: Seq<char>| #[trigger] post.coupon_view(
        p,
        c,
        s,
    ) is Some implies post.has_product(p) && post.product_seller(p) == s && post.coupon_view(
        p,
        c,
        s,
    )->Some_0.product_id == p && post.coupon_view(p, c, s)->Some_0.code == c && post.coupon_view(
        p,
        c,
        s,
    )->Some_0.seller == s by {
        if p == product_id && c == code && s == caller {
            assert(pre.has_product(product_id));
            assert(pre.product_seller(product_id) == caller);
            assert(post.has_product(p));
            assert(post.product_seller(p) == pre.product_seller(p));
        } else {
            assert(post.coupon_view(p, c, s) == pre.coupon_view(p, c, s));
            assert(pre.has_product(p));
            assert(post.has_product(p));
            assert(post.product_seller(p) == pre.product_seller(p));
        }
    }
    assert forall|s: Seq<char>, i: int| #![trigger post.seller_coupons(s)[i]]
        0 <= i < post.seller_coupons(s).len() implies post.coupon_view(
        post.seller_coupons(s)[i].product_id,
        post.seller_coupons(s)[i].code,
        post.seller_coupons(s)[i].seller,
    ) is Some && post.seller_coupons(s)[i].seller == s by {
        let nk = CouponKeyView { product_id, code, seller: caller };
        if s == caller {
            assert(post.seller_coupons(s) == pre.seller_coupons(s).push(nk));
            if i < pre.seller_coupons(s).len() {
                let k = pre.seller_coupons(s)[i];
                assert(post.seller_coupons(s)[i] == k);
                assert(pre.coupon_view(k.product_id, k.code, k.seller) is Some && k.seller == s);
                if !(k.product_id == product_id && k.code == code && k.seller == caller) {
                    assert(post.coupon_view(k.product_id, k.code, k.seller) == pre.coupon_view(
                        k.product_id,
                        k.code,
                        k.seller,
                    ));
                } else {
                    assert(post.coupon_view(k.product_id, k.code, k.seller) is Some);
                }
            } else {
                assert(post.seller_coupons(s)[i] == nk);
                assert(post.coupon_view(product_id, code, caller) is Some);
            }
        } else {
            assert(post.seller_coupons_index(s) == pre.seller_coupons_index(s));
            let k = pre.seller_coupons(s)[i];
            assert(post.seller_coupons(s)[i] == k);
            assert(pre.coupon_view(k.product_id, k.code, k.seller) is Some && k.seller == s);
            if !(k.product_id == product_id && k.code == code && k.seller == caller) {
                assert(post.coupon_view(k.product_id, k.code, k.seller) == pre.coupon_view(
                    k.product_id,
                    k.code,
                    k.seller,
                ));
            } else {
                assert(post.coupon_view(k.product_id, k.code, k.seller) is Some);
            }
        }
    }
}

/// Updating a coupon preserves store consistency.
pub proof fn lemma_update_coupon_consistent(
    pre: Contract,
    post: Contract,
    caller: Seq<char>,
    product_id: Seq<char>,
    code: Seq<char>,
    allowed_uses: u128,
    discount_amount: u128,
)
    requires
        store_consistent(pre),
        pre.update_coupon_err(caller, product_id, code) is None,
        coupon_updated(pre, post, caller, product_id, code, allowed_uses, discount_amount),
    ensures
        store_consistent(post),
{
    lemma_product_clauses_unchanged(pre, post);
    assert forall|k: Seq<char>| pre.has_product(k) implies #[trigger] post.has_product(k) by {
        assert(post.product_view(k) == pre.product_view(k));
    }
    assert forall|k: Seq<char>| pre.has_product(k) implies #[trigger] post.product_seller(k)
        == pre.product_seller(k) by {
        assert(post.product_view(k) == pre.product_view(k));
    }
    lemma_buyer_clause_unchanged(pre, post);
    lemma_review_clause_unchanged(pre, post);
    lemma_tracking_clause_unchanged(pre, post);
    assert forall|p: Seq<char>, c: Seq<char>, s: Seq<char>| #[trigger] post.coupon_view(
        p,
        c,
        s,
    ) is Some implies post.has_product(p) && post.product_seller(p) == s && post.coupon_view(
        p,
        c,
        s,
    )->Some_0.product_id == p && post.coupon_view(p, c, s)->Some_0.code == c && post.coupon_view(
        p,
        c,
        s,
    )->Some_0.seller == s by {
        if p == product_id && c == code && s == caller {
            assert(pre.has_product(product_id));
            assert(pre.product_seller(product_id) == caller);
            assert(post.has_product(p));
            assert(post.product_seller(p) == pre.product_seller(p));
        } else {
            assert(post.coupon_view(p, c, s) == pre.coupon_view(p, c, s));
            assert(pre.has_product(p));
            assert(post.has_product(p));
            assert(post.product_seller(p) == pre.product_seller(p));
        }
    }
    assert forall|s: Seq<char>, i: int| #![trigger post.seller_coupons(s)[i]]
        0 <= i < post.seller_coupons(s).len() implies post.coupon_view(
        post.seller_coupons(s)[i].product_id,
        post.seller_coupons(s)[i].code,
        post.seller_coupons(s)[i].seller,
    ) is Some && post.seller_coupons(s)[i].seller == s by {
        assert(post.seller_coupons_index(s) == pre.seller_coupons_index(s));
        let k = pre.seller_coupons(s)[i];
        assert(post.seller_coupons(s)[i] == k);
        assert(pre.coupon_view(k.product_id, k.code, k.seller) is Some && k.seller == s);
        if !(k.product_id == product_id && k.code == code && k.seller == caller) {
            assert(post.coupon_view(k.product_id, k.code, k.seller) == pre.coupon_view(
                k.product_id,
                k.code,
                k.seller,
            ));
        } else {
            assert(post.coupon_view(k.product_id, k.code, k.seller) is Some);
        }
    }
}

/// Adding a review preserves store consistency.
pub proof fn lemma_add_review_consistent(
    pre: Contract,
    post: Contract,
    caller: Seq<char>,
    product_id: Seq<char>,
    content: Seq<char>,
    star: u64,
)
    requires
        store_consistent(pre),
        pre.add_review_err(caller, product_id) is None,
        review_added(pre, post, caller, product_id, content, star),
    ensures
        store_consistent(post),
{
    lemma_product_clauses_unchanged(pre, post);
    assert forall|k: Seq<char>| pre.has_product(k) implies #[trigger] post.has_product(k) by {
        assert(post.product_view(k) == pre.product_view(k));
    }
    assert forall|k: Seq<char>| pre.has_product(k) implies #[trigger] post.product_seller(k)
        == pre.product_seller(k) by {
        assert(post.product_view(k) == pre.product_view(k));
    }
    lemma_buyer_clause_unchanged(pre, post);
    lemma_coupon_clauses_unchanged(pre, post);
    assert forall|pid: Seq<char>| #[trigger] post.reviews_index(pid) is Some implies
        post.has_product(pid) by {
        if pid == product_id {
            assert(pre.has_product(product_id));
        } else {
            assert(post.reviews_index(pid) == pre.reviews_index(pid));
            assert(pre.has_product(pid));
        }
    }
    assert forall|pid: Seq<char>, u: Seq<char>| #[trigger] post.reviewed(pid, u) implies
        post.has_product(pid) by {
        if pid == product_id && u == caller {
            assert(pre.has_product(product_id));
        } else {
            assert(post.reviewed(pid, u) == pre.reviewed(pid, u));
            assert(pre.has_product(pid));
        }
    }
}

/// How often `x` occurs in `s`.
pub open spec fn occurrences(s: Seq<Seq<char>>, x: Seq<char>) -> nat
    decreases s.len(),
{
    if s.len() == 0 {
        0
    } else {
        (if s[0] == x {
            1nat
        } else {
            0nat
        }) + occurrences(s.subrange(1, s.len() as int), x)
    }
}

/// Appending an element raises its own count by one and no other's.
pub proof fn lemma_occurrences_push(s: Seq<Seq<char>>, e: Seq<char>, x: Seq<char>)
    ensures
        occurrences(s.push(e), x) == occurrences(s, x) + (if e == x {
            1int
        } else {
            0int
        }),
    decreases s.len(),
{
    let p = s.push(e);
    if s.len() == 0 {
        assert(p[0] == e);
        assert(p.subrange(1, p.len() as int) =~= Seq::<Seq<char>>::empty());
        assert(occurrences(Seq::<Seq<char>>::empty(), x) == 0);
        assert(occurrences(s, x) == 0);
    } else {
        assert(p[0] == s[0]);
        let t = s.subrange(1, s.len() as int);
        lemma_occurrences_push(t, e, x);
        assert(p.subrange(1, p.len() as int) =~= t.push(e));
        assert(occurrences(p, x) == (if p[0] == x {
            1nat
        } else {
            0nat
        }) + occurrences(t.push(e), x));
        assert(occurrences(s, x) == (if s[0] == x {
            1nat
        } else {
            0nat
        }) + occurrences(t, x));
    }
}

/// Uniqueness: once a product has been created under an id, a second
/// creation under the same id answers `AlreadyExists` — and then, by
/// `create_product`'s contract, changes nothing — while the record first
/// created is still stored intact.
pub proof fn lemma_product_uniqueness(
    pre: Contract,
    post: Contract,
    caller: Seq<char>,
    id: Seq<char>,
    name: Seq<char>,
    price: u128,
    description: Seq<char>,
    img: Seq<char>,
    is_active: bool,
)
    requires
        product_created(pre, post, caller, id, name, price, description, img, is_active),
    ensures
        post.create_product_err(id) == Some(MarketError::AlreadyExists),
        post.product_view(id) == Some(
            ProductView { id, name, price, description, img, is_active, seller: caller },
        ),
{
}

/// Ownership: an identity other than the owning seller cannot update a
/// product; the attempt answers `Unauthorized` — and then, by
/// `update_product`'s contract, leaves the record unchanged.
pub proof fn lemma_update_requires_ownership(s: Contract, caller: Seq<char>, id: Seq<char>)
    requires
        s.has_product(id),
        caller != s.product_seller(id),
    ensures
        s.update_product_err(caller, id) == Some(MarketError::Unauthorized),
{
}

/// Index consistency: a successful creation by a seller appends the new id
/// to that seller's index, so the id occurs there exactly once more than
/// before, and the global product list grows by exactly one.
pub proof fn lemma_seller_index_growth(
    pre: Contract,
    post: Contract,
    caller: Seq<char>,
    id: Seq<char>,
    name: Seq<char>,
    price: u128,
    description: Seq<char>,
    img: Seq<char>,
    is_active: bool,
)
    requires
        product_created(pre, post, caller, id, name, price, description, img, is_active),
    ensures
        post.seller_products(caller) == pre.seller_products(caller).push(id),
        occurrences(post.seller_products(caller), id) == occurrences(
            pre.seller_products(caller),
            id,
        ) + 1,
        post.all_products().len() == pre.all_products().len() + 1,
{
    lemma_occurrences_push(pre.seller_products(caller), id, id);
}

/// No self-dealing: a product's own seller can neither buy it nor review it;
/// both attempts answer `SelfDealing` — and then, by the contracts of
/// `buy_product` and `add_review`, no index moves.
pub proof fn lemma_no_self_dealing(s: Contract, caller: Seq<char>, product_id: Seq<char>)
    requires
        s.has_product(product_id),
        caller == s.product_seller(product_id),
    ensures
        s.buy_product_err(caller, product_id) == Some(MarketError::SelfDealing),
        s.add_review_err(caller, product_id) == Some(MarketError::SelfDealing),
{
}

/// Review idempotence: after one successful review of a product, a second
/// attempt by the same author answers `AlreadyReviewed`, and each of the
/// two review indices has grown by exactly one entry.
pub proof fn lemma_review_idempotence(
    pre: Contract,
    post: Contract,
    caller: Seq<char>,
    product_id: Seq<char>,
    content: Seq<char>,
    star: u64,
)
    requires
        pre.add_review_err(caller, product_id) is None,
        review_added(pre, post, caller, product_id, content, star),
    ensures
        post.add_review_err(caller, product_id) == Some(MarketError::AlreadyReviewed),
        post.product_reviews(product_id).len() == pre.product_reviews(product_id).len() + 1,
        post.reviewer_reviews(caller).len() == pre.reviewer_reviews(caller).len() + 1,
{
}

/// Coupon composite-key isolation: a coupon creation that would succeed
/// still succeeds after another coupon was created under a key that differs
/// in the product, the code, or the seller; and the binding it reads is
/// untouched by that other creation, while the other coupon is retrievable
/// under its own key.
pub proof fn lemma_coupon_key_isolation(
    pre: Contract,
    post: Contract,
    caller: Seq<char>,
    product_id: Seq<char>,
    code: Seq<char>,
    allowed_uses: u128,
    discount_amount: u128,
    caller2: Seq<char>,
    product_id2: Seq<char>,
    code2: Seq<char>,
)
    requires
        coupon_created(pre, post, caller, product_id, code, allowed_uses, discount_amount),
        !(product_id2 == product_id && code2 == code && caller2 == caller),
        pre.create_coupon_err(caller2, product_id2, code2) is None,
    ensures
        post.create_coupon_err(caller2, product_id2, code2) is None,
        post.coupon_view(product_id2, code2, caller2) == pre.coupon_view(
            product_id2,
            code2,
            caller2,
        ),
        post.coupon_view(product_id, code, caller) is Some,
{
}

} // verus!
