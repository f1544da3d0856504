//! The product catalogue: listing, lookup by id, and text search.

use crate::text::{contains, lower_of, occurs_in, to_lowercase};
use crate::types::{same_product, Product};
use vstd::prelude::*;

verus! {

/// Why a catalogue lookup gives no product.
#[derive(Debug, Clone, Copy, PartialEq, Eq, Structural)]
pub enum CatalogError {
    /// No product has the id asked for.
    NotFound,
}

/// The catalogue of products, in a fixed order.
pub struct ProductCatalogService {
    pub products: Vec<Product>,
}

/// Some product of `products` has id `id`.
pub open spec fn has_id(products: Seq<Product>, id: Seq<char>) -> bool {
    exists|i: int| 0 <= i < products.len() && products[i].id@ == id
}

/// `i` is the position of the first product with id `id`.
pub open spec fn is_first_with_id(products: Seq<Product>, id: Seq<char>, i: int) -> bool {
    &&& 0 <= i < products.len()
    &&& products[i].id@ == id
    &&& forall|j: int| 0 <= j < i ==> products[j].id@ != id
}

/// The position of the first product with id `id`, where there is one.
pub open spec fn first_with_id(products: Seq<Product>, id: Seq<char>) -> int {
    choose|i: int| is_first_with_id(products, id, i)
}

/// Where the first product with id `id` stands, if any has it.
pub fn find_product(products: &Vec<Product>, id: &str) -> (r: Option<usize>)
    ensures
        r is None <==> !has_id(products@, id@),
        r matches Some(i) ==> i == first_with_id(products@, id@) && is_first_with_id(
            products@,
            id@,
            i as int,
        ),
{
    let wanted = id.to_owned();
    let mut i: usize = 0;
    while i < products.len()
        invariant
            wanted@ == id@,
            i <= products@.len(),
            forall|j: int| 0 <= j < i ==> products@[j].id@ != id@,
        decreases products.len() - i,
    {
        if products[i].id == wanted {
            proof {
                assert(is_first_with_id(products@, id@, i as int));
                let k = first_with_id(products@, id@);
                assert(is_first_with_id(products@, id@, k));
                if k < i {
                    assert(products@[k].id@ != id@);
                } else if k > i {
                    assert(products@[i as int].id@ != id@);
                }
            }
            return Some(i);
        }
        i += 1;
    }
    None
}

/// A product matches a search when the case-folded query occurs in its
/// case-folded name or description.
pub open spec fn matches_query(
    folded_query: Seq<char>,
    folded_name: Seq<char>,
    folded_description: Seq<char>,
) -> bool {
    occurs_in(folded_query, folded_name) || occurs_in(folded_query, folded_description)
}

/// The products that match `query`, in catalogue order.
pub open spec fn search_spec(products: Seq<Product>, query: Seq<char>) -> Seq<Product>
    decreases products.len(),
{
    if products.len() == 0 {
        Seq::empty()
    } else {
        let rest = search_spec(products.drop_last(), query);
        let p = products.last();
        if matches_query(lower_of(query), lower_of(p.name@), lower_of(p.description@)) {
            rest.push(p)
        } else {
            rest
        }
    }
}

/// Whether a product matches a search, given the case-folded query, name and
/// description.
pub fn product_matches(
    folded_query: &str,
    folded_name: &str,
    folded_description: &str,
) -> (r: bool)
    ensures
        r == matches_query(folded_query@, folded_name@, folded_description@),
{
    contains(folded_name, folded_query) || contains(folded_description, folded_query)
}

impl ProductCatalogService {
    pub fn new(products: Vec<Product>) -> (r: ProductCatalogService)
        ensures
            r.products@ == products@,
    {
        ProductCatalogService { products }
    }

    /// Every product, in catalogue order.
    pub fn list_products(&self) -> (r: Vec<Product>)
        ensures
            r@.len() == self.products@.len(),
            forall|i: int| 0 <= i < r@.len() ==> same_product(r@[i], self.products@[i]),
    {
        let mut r: Vec<Product> = Vec::new();
        let mut i: usize = 0;
        while i < self.products.len()
            invariant
                i <= self.products@.len(),
                r@.len() == i,
                forall|j: int| 0 <= j < i ==> same_product(r@[j], self.products@[j]),
            decreases self.products.len() - i,
        {
            r.push(self.products[i].duplicate());
            i += 1;
        }
        r
    }

    /// The first product with id `id`.
    pub fn get_product(&self, id: &str) -> (r: Result<Product, CatalogError>)
        ensures
            r is Err <==> !has_id(self.products@, id@),
            r matches Ok(p) ==> same_product(p, self.products@[first_with_id(self.products@, id@)]),
            r matches Err(e) ==> e == CatalogError::NotFound,
    {
        match find_product(&self.products, id) {
            Some(i) => Ok(self.products[i].duplicate()),
            None => Err(CatalogError::NotFound),
        }
    }

    /// The products whose name or description contains `query`, ignoring
    /// case, in catalogue order.
    pub fn search_products(&self, query: &str) -> (r: Vec<Product>)
        ensures
            r@.len() == search_spec(self.products@, query@).len(),
            forall|i: int|
                0 <= i < r@.len() ==> same_product(r@[i], search_spec(self.products@, query@)[i]),
    {
        let folded_query = to_lowercase(query);
        let mut r: Vec<Product> = Vec::new();
        let mut i: usize = 0;
        while i < self.products.len()
            invariant
                folded_query@ == lower_of(query@),
                i <= self.products@.len(),
                r@.len() == search_spec(self.products@.subrange(0, i as int), query@).len(),
                forall|j: int|
                    0 <= j < r@.len() ==> same_product(
                        r@[j],
                        search_spec(self.products@.subrange(0, i as int), query@)[j],
                    ),
            decreases self.products.len() - i,
        {
            proof {
                assert(self.products@.subrange(0, i + 1).drop_last() =~= self.products@.subrange(
                    0,
                    i as int,
                ));
            }
            let p = &self.products[i];
            let name = to_lowercase(p.name.as_str());
            let description = to_lowercase(p.description.as_str());
            if product_matches(folded_query.as_str(), name.as_str(), description.as_str()) {
                r.push(p.duplicate());
            }
            i += 1;
        }
        proof {
            assert(self.products@.subrange(0, self.products@.len() as int) =~= self.products@);
        }
        r
    }
}

} // verus!
