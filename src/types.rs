//! The records that pass between the storefront's services.

use crate::money::Money;
use vstd::prelude::*;

verus! {

/// An advertisement: a link target and the text shown for it.
#[derive(Clone, Debug)]
pub struct Ad {
    pub redirect_url: String,
    pub text: String,
}

impl Ad {
    pub fn new(redirect_url: &str, text: &str) -> (r: Ad)
        ensures
            r.redirect_url@ == redirect_url@,
            r.text@ == text@,
    {
        Ad { redirect_url: redirect_url.to_owned(), text: text.to_owned() }
    }

    /// A copy of this ad.
    pub fn duplicate(&self) -> (r: Ad)
        ensures
            r == *self,
    {
        Ad { redirect_url: self.redirect_url.clone(), text: self.text.clone() }
    }
}

/// A postal address, handed unchanged to the shipping service.
#[derive(Clone, Debug)]
pub struct Address {
    pub street_address: String,
    pub city: String,
    pub state: String,
    pub country: String,
    pub zip_code: i32,
}

impl Address {
    /// A copy of this address.
    pub fn duplicate(&self) -> (r: Address)
        ensures
            r == *self,
    {
        Address {
            street_address: self.street_address.clone(),
            city: self.city.clone(),
            state: self.state.clone(),
            country: self.country.clone(),
            zip_code: self.zip_code,
        }
    }
}

/// A product in a cart, with how many of it.
#[derive(Clone, Debug)]
pub struct CartItem {
    pub product_id: String,
    pub quantity: u32,
}

impl CartItem {
    /// A copy of this item.
    pub fn duplicate(&self) -> (r: CartItem)
        ensures
            r == *self,
    {
        CartItem { product_id: self.product_id.clone(), quantity: self.quantity }
    }
}

/// Copies of the items of a list.
pub fn duplicate_items(items: &Vec<CartItem>) -> (r: Vec<CartItem>)
    ensures
        r@ == items@,
{
    let mut r: Vec<CartItem> = Vec::new();
    let mut i: usize = 0;
    while i < items.len()
        invariant
            i <= items.len(),
            r@ == items@.subrange(0, i as int),
        decreases items.len() - i,
    {
        r.push(items[i].duplicate());
        i += 1;
    }
    proof {
        assert(items@.subrange(0, items.len() as int) =~= items@);
    }
    r
}

/// A user's cart.
#[derive(Clone, Debug)]
pub struct Cart {
    pub user_id: String,
    pub items: Vec<CartItem>,
}

/// Card details, handed unchanged to the payment service.
#[derive(Clone, Debug)]
pub struct CreditCardInfo {
    pub credit_card_number: String,
    pub credit_card_ccv: i32,
    pub credit_card_expiration_year: i32,
    pub credit_card_expiration_month: i32,
}

impl CreditCardInfo {
    /// A copy of these card details.
    pub fn duplicate(&self) -> (r: CreditCardInfo)
        ensures
            r == *self,
    {
        CreditCardInfo {
            credit_card_number: self.credit_card_number.clone(),
            credit_card_ccv: self.credit_card_ccv,
            credit_card_expiration_year: self.credit_card_expiration_year,
            credit_card_expiration_month: self.credit_card_expiration_month,
        }
    }
}

/// A cart item with the cost of one unit of it in the buyer's currency.
#[derive(Clone, Debug)]
pub struct OrderItem {
    pub item: CartItem,
    pub cost: Money,
}

impl OrderItem {
    /// A copy of this order item.
    pub fn duplicate(&self) -> (r: OrderItem)
        ensures
            r == *self,
    {
        OrderItem { item: self.item.duplicate(), cost: self.cost.duplicate() }
    }
}

/// The receipt of a placed order.
#[derive(Clone, Debug)]
pub struct OrderResult {
    pub order_id: String,
    pub shipping_tracking_id: String,
    pub shipping_cost: Money,
    pub shipping_address: Address,
    pub items: Vec<OrderItem>,
}

impl OrderResult {
    /// A copy of this receipt.
    pub fn duplicate(&self) -> (r: OrderResult)
        ensures
            r.order_id == self.order_id,
            r.shipping_tracking_id == self.shipping_tracking_id,
            r.shipping_cost == self.shipping_cost,
            r.shipping_address == self.shipping_address,
            r.items@ == self.items@,
    {
        let mut items: Vec<OrderItem> = Vec::new();
        let mut i: usize = 0;
        while i < self.items.len()
            invariant
                i <= self.items.len(),
                items@ == self.items@.subrange(0, i as int),
            decreases self.items.len() - i,
        {
            items.push(self.items[i].duplicate());
            i += 1;
        }
        proof {
            assert(items@ =~= self.items@);
        }
        OrderResult {
            order_id: self.order_id.clone(),
            shipping_tracking_id: self.shipping_tracking_id.clone(),
            shipping_cost: self.shipping_cost.duplicate(),
            shipping_address: self.shipping_address.duplicate(),
            items,
        }
    }
}

/// A product of the catalogue, priced in US dollars.
#[derive(Clone, Debug)]
pub struct Product {
    pub id: String,
    pub name: String,
    pub description: String,
    pub picture: String,
    pub price_usd: Money,
    pub categories: Vec<String>,
}

/// `a` and `b` describe the same product.
pub open spec fn same_product(a: Product, b: Product) -> bool {
    &&& a.id == b.id
    &&& a.name == b.name
    &&& a.description == b.description
    &&& a.picture == b.picture
    &&& a.price_usd == b.price_usd
    &&& a.categories@ == b.categories@
}

/// Copies of the strings of a list.
pub fn duplicate_strings(v: &Vec<String>) -> (r: Vec<String>)
    ensures
        r@ == v@,
{
    let mut r: Vec<String> = Vec::new();
    let mut i: usize = 0;
    while i < v.len()
        invariant
            i <= v.len(),
            r@ == v@.subrange(0, i as int),
        decreases v.len() - i,
    {
        r.push(v[i].clone());
        i += 1;
    }
    proof {
        assert(r@ =~= v@);
    }
    r
}

impl Product {
    /// A copy of this product.
    pub fn duplicate(&self) -> (r: Product)
        ensures
            same_product(r, *self),
    {
        Product {
            id: self.id.clone(),
            name: self.name.clone(),
            description: self.description.clone(),
            picture: self.picture.clone(),
            price_usd: self.price_usd.duplicate(),
            categories: duplicate_strings(&self.categories),
        }
    }
}

} // verus!
