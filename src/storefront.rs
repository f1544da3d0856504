//! What the storefront's pages show, computed from what the services return.

use crate::catalog::{find_product, first_with_id, has_id};
use crate::text::{contains, occurs_in};
use crate::types::{same_product, Ad, Product};
use vstd::prelude::*;

verus! {

/// For each recommended id, key by key, the first product with that id;
/// ids that no product has are skipped.
pub open spec fn recommended_spec(ids: Seq<String>, products: Seq<Product>) -> Seq<Product>
    decreases ids.len(),
{
    if ids.len() == 0 {
        Seq::empty()
    } else {
        let rest = recommended_spec(ids.drop_last(), products);
        if has_id(products, ids.last()@) {
            rest.push(products[first_with_id(products, ids.last()@)])
        } else {
            rest
        }
    }
}

/// The ads whose link does not mention `product_id`, in order.
pub open spec fn unrelated_ads_spec(ads: Seq<Ad>, product_id: Seq<char>) -> Seq<Ad>
    decreases ads.len(),
{
    if ads.len() == 0 {
        Seq::empty()
    } else {
        let rest = unrelated_ads_spec(ads.drop_last(), product_id);
        if occurs_in(product_id, ads.last().redirect_url@) {
            rest
        } else {
            rest.push(ads.last())
        }
    }
}

/// The products to show for recommended ids, in the order recommended.
pub fn recommended_products(ids: &Vec<String>, products: &Vec<Product>) -> (r: Vec<Product>)
    ensures
        r@.len() == recommended_spec(ids@, products@).len(),
        forall|i: int|
            0 <= i < r@.len() ==> same_product(r@[i], recommended_spec(ids@, products@)[i]),
{
    let mut r: Vec<Product> = Vec::new();
    let mut k: usize = 0;
    while k < ids.len()
        invariant
            k <= ids@.len(),
            r@.len() == recommended_spec(ids@.subrange(0, k as int), products@).len(),
            forall|i: int|
                0 <= i < r@.len() ==> same_product(
                    r@[i],
                    recommended_spec(ids@.subrange(0, k as int), products@)[i],
                ),
        decreases ids.len() - k,
    {
        proof {
            assert(ids@.subrange(0, k + 1).drop_last() =~= ids@.subrange(0, k as int));
        }
        match find_product(products, ids[k].as_str()) {
            Some(i) => {
                r.push(products[i].duplicate());
            },
            None => {},
        }
        k += 1;
    }
    proof {
        assert(ids@.subrange(0, ids@.len() as int) =~= ids@);
    }
    r
}

/// The ads to show beside a product: those whose link does not mention the
/// product's id.
pub fn unrelated_ads(ads: &Vec<Ad>, product_id: &str) -> (r: Vec<Ad>)
    ensures
        r@ == unrelated_ads_spec(ads@, product_id@),
{
    let mut r: Vec<Ad> = Vec::new();
    let mut k: usize = 0;
    while k < ads.len()
        invariant
            k <= ads@.len(),
            r@ == unrelated_ads_spec(ads@.subrange(0, k as int), product_id@),
        decreases ads.len() - k,
    {
        proof {
            assert(ads@.subrange(0, k + 1).drop_last() =~= ads@.subrange(0, k as int));
        }
        if !contains(ads[k].redirect_url.as_str(), product_id) {
            r.push(ads[k].duplicate());
        }
        k += 1;
    }
    proof {
        assert(ads@.subrange(0, ads@.len() as int) =~= ads@);
    }
    r
}

} // verus!
