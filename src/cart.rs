//! A user's cart record: one line per product, with a version that grows
//! each time the cart is emptied.

use crate::types::{duplicate_items, Cart, CartItem};
use vstd::prelude::*;

verus! {

/// Why an item was not added to a cart.
#[derive(Debug, Clone, Copy, PartialEq, Eq, Structural)]
pub enum CartError {
    /// The product's quantity would exceed a `u32`.
    QuantityOverflow,
}

/// The stored state of one user's cart.
pub struct CartData {
    /// How many times the cart has been emptied, up to `u32::MAX`.
    pub version: u32,
    /// One line per product.
    pub items: Vec<CartItem>,
}

/// The line of `items` for product `id`.
pub open spec fn line_of(items: Seq<CartItem>, id: Seq<char>) -> int {
    choose|i: int| 0 <= i < items.len() && items[i].product_id@ == id
}

/// `items` has a line for product `id`.
pub open spec fn has_line(items: Seq<CartItem>, id: Seq<char>) -> bool {
    exists|i: int| 0 <= i < items.len() && items[i].product_id@ == id
}

impl CartData {
    /// No product has two lines.
    pub open spec fn wf(&self) -> bool {
        forall|i: int, j: int|
            0 <= i < j < self.items@.len() ==> self.items@[i].product_id@
                != self.items@[j].product_id@
    }

    /// Adds `item.quantity` of its product: to the product's line if it has
    /// one, else as a new line at the end.
    pub fn add_item(&mut self, item: CartItem) -> (r: Result<(), CartError>)
        requires
            old(self).wf(),
        ensures
            final(self).wf(),
            final(self).version == old(self).version,
            has_line(old(self).items@, item.product_id@) ==> {
                let i = line_of(old(self).items@, item.product_id@);
                let total = old(self).items@[i].quantity + item.quantity;
                &&& total > u32::MAX ==> r == Err::<(), CartError>(CartError::QuantityOverflow)
                    && final(self).items@ == old(self).items@
                &&& total <= u32::MAX ==> r is Ok && final(self).items@ == old(self).items@.update(
                    i,
                    CartItem { product_id: old(self).items@[i].product_id, quantity: total as u32 },
                )
            },
            !has_line(old(self).items@, item.product_id@) ==> r is Ok && final(self).items@
                == old(self).items@.push(item),
    {
        let mut i: usize = 0;
        while i < self.items.len()
            invariant
                i <= self.items@.len(),
                self.items@ == old(self).items@,
                self.version == old(self).version,
                old(self).wf(),
                forall|j: int| 0 <= j < i ==> self.items@[j].product_id@ != item.product_id@,
            decreases self.items.len() - i,
        {
            if self.items[i].product_id == item.product_id {
                proof {
                    assert(has_line(old(self).items@, item.product_id@));
                    let k = line_of(old(self).items@, item.product_id@);
                    assert(0 <= k < old(self).items@.len() && old(self).items@[k].product_id@
                        == item.product_id@);
                    if k != i {
                        if k < i {
                            assert(self.items@[k].product_id@ != self.items@[i as int].product_id@);
                        } else {
                            assert(self.items@[i as int].product_id@ != self.items@[k].product_id@);
                        }
                    }
                }
                let current = self.items[i].quantity;
                match current.checked_add(item.quantity) {
                    Some(total) => {
                        let id = self.items[i].product_id.clone();
                        self.items.set(i, CartItem { product_id: id, quantity: total });
                        proof {
                            assert forall|a: int, b: int|
                                0 <= a < b < self.items@.len() implies self.items@[a].product_id@
                                != self.items@[b].product_id@ by {
                                assert(old(self).items@[a].product_id@
                                    != old(self).items@[b].product_id@);
                            }
                        }
                        return Ok(());
                    },
                    None => {
                        return Err(CartError::QuantityOverflow);
                    },
                }
            }
            i += 1;
        }
        self.items.push(item);
        Ok(())
    }

    /// Removes every line and counts one more emptying.
    pub fn empty(&mut self)
        ensures
            final(self).wf(),
            final(self).items@.len() == 0,
            final(self).version == if old(self).version < u32::MAX {
                old(self).version + 1
            } else {
                u32::MAX as int
            },
    {
        self.items = Vec::new();
        if self.version < u32::MAX {
            self.version = self.version + 1;
        }
    }

    /// The cart of `user_id` that this record holds.
    pub fn to_cart(&self, user_id: String) -> (r: Cart)
        ensures
            r.user_id == user_id,
            r.items@ == self.items@,
    {
        Cart { user_id, items: duplicate_items(&self.items) }
    }
}

impl Default for CartData {
    /// An empty cart that was never emptied.
    fn default() -> (r: CartData)
        ensures
            r.version == 0,
            r.items@.len() == 0,
            r.wf(),
    {
        CartData { version: 0, items: Vec::new() }
    }
}

} // verus!
