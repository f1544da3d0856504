//! Storefront order fulfilment: exact-decimal money, currency conversion,
//! the checkout saga that places an order, and the small catalogue, cart,
//! shipping, payment, ad and recommendation services around it.

pub mod money;
pub mod types;
pub mod currency;
pub mod checkout;
mod ids;
pub mod text;
pub mod catalog;
mod random;
pub mod ads;
pub mod services;
pub mod cart;
pub mod storefront;
