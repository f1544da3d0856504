//! The storefront's stateless services: shipping, payment, confirmation
//! e-mail and product recommendations.

use crate::ids::fresh_id;
use crate::money::{canonical, usd, Money};
use crate::random::shuffle;
use crate::types::{Address, CartItem, CreditCardInfo, OrderResult};
use vstd::prelude::*;

verus! {

/// Quotes and dispatches shipments.
pub struct ShippingService;

impl ShippingService {
    pub fn new() -> ShippingService {
        ShippingService
    }

    /// The cost of shipping: a flat three dollars fifty, whatever the
    /// address and the items.
    pub fn get_quote(&self, _address: &Address, _items: &Vec<CartItem>) -> (r: Money)
        ensures
            r@ == canonical(usd(), 3_500_000_000),
    {
        Money::from_usd(3, 50)
    }

    /// Dispatches a shipment and gives its fresh tracking id.
    pub fn ship_order(&self, _address: &Address, _items: &Vec<CartItem>) -> (r: String)
        ensures
            r@.len() == 36,
    {
        fresh_id()
    }
}

/// Charges cards.
pub struct PaymentService;

impl PaymentService {
    pub fn new() -> PaymentService {
        PaymentService
    }

    /// Charges `credit_card` for `amount` and gives the fresh transaction
    /// id. Every charge is accepted.
    pub fn charge(&self, _amount: &Money, _credit_card: &CreditCardInfo) -> (r: String)
        ensures
            r@.len() == 36,
    {
        fresh_id()
    }
}

/// Why a confirmation e-mail was not sent.
#[derive(Debug, Clone, Copy, PartialEq, Eq, Structural)]
pub enum EmailError {
    /// Sending e-mail is not available.
    Unavailable,
}

/// Sends order confirmations.
pub struct EmailService;

impl EmailService {
    pub fn new() -> EmailService {
        EmailService
    }

    /// Sending confirmations is not available: every attempt fails.
    pub fn send_order_confirmation(&self, _email: &str, _order: &OrderResult) -> (r: Result<
        (),
        EmailError,
    >)
        ensures
            r == Err::<(), EmailError>(EmailError::Unavailable),
    {
        Err(EmailError::Unavailable)
    }
}

/// How many products are recommended.
pub const NUM_RECOMMENDATIONS: usize = 3;

/// Recommends products at random.
pub struct RecommendationService;

/// The first `NUM_RECOMMENDATIONS` ids of a list, or all if there are fewer.
pub fn first_recommendations(ids: &Vec<String>) -> (r: Vec<String>)
    ensures
        r@ == ids@.take(
            if ids@.len() < NUM_RECOMMENDATIONS {
                ids@.len() as int
            } else {
                NUM_RECOMMENDATIONS as int
            },
        ),
{
    let n = if ids.len() < NUM_RECOMMENDATIONS {
        ids.len()
    } else {
        NUM_RECOMMENDATIONS
    };
    let mut r: Vec<String> = Vec::new();
    let mut i: usize = 0;
    while i < n
        invariant
            n <= ids@.len(),
            i <= n,
            r@ == ids@.take(i as int),
        decreases n - i,
    {
        r.push(ids[i].clone());
        proof {
            assert(r@ =~= ids@.take(i + 1));
        }
        i += 1;
    }
    r
}

impl RecommendationService {
    pub fn new() -> RecommendationService {
        RecommendationService
    }

    /// Up to `NUM_RECOMMENDATIONS` of the catalogue's product ids, picked
    /// at random without repetition.
    pub fn list_recommendations(&self, catalogue_ids: Vec<String>) -> (r: Vec<String>)
        ensures
            exists|shuffled: Seq<String>|
                shuffled.to_multiset() == catalogue_ids@.to_multiset() && r@ == shuffled.take(
                    if shuffled.len() < NUM_RECOMMENDATIONS {
                        shuffled.len() as int
                    } else {
                        NUM_RECOMMENDATIONS as int
                    },
                ),
    {
        let mut ids = catalogue_ids;
        shuffle(&mut ids);
        first_recommendations(&ids)
    }
}

} // verus!
