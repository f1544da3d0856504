//! The checkout saga: the strictly ordered calls that place an order.
//!
//! A checkout is a state machine. Each step takes the reply of the
//! collaborator called last and gives the next call to make, or the end of
//! the checkout. The caller performs the calls; this module decides.
//!
//! The order of calls is: fetch the cart; for each item, look up the product
//! and convert its price into the buyer's currency; quote shipping and
//! convert the quote; charge the card for the total; ship; empty the cart;
//! send the confirmation. A failure before the shipment ends the checkout
//! with an error. Payment is not refunded when shipping fails. Emptying the
//! cart and sending the confirmation are best-effort: their failure does not
//! fail the checkout.

use crate::money::{add_spec, scale_spec, Money, MoneyError, MoneyView};
use crate::types::{
    duplicate_items, Address, CartItem, CreditCardInfo, OrderItem, OrderResult, Product,
};
use vstd::prelude::*;

verus! {

/// Why a checkout fails.
#[derive(Debug, Clone, Copy, PartialEq, Eq, Structural)]
pub enum CheckoutError {
    /// The cart could not be fetched.
    CartUnavailable,
    /// A product of the cart could not be looked up.
    ProductLookupFailed,
    /// A price or the shipping quote could not be converted.
    UnsupportedCurrency,
    /// Amounts to be added are in different currencies.
    CurrencyMismatch,
    /// The total has more whole units than an `i64` holds.
    AmountOutOfRange,
    /// The card was not charged.
    PaymentDeclined,
    /// Shipping could not be quoted, or the shipment was not dispatched.
    ShippingFailed,
}

/// What a checkout needs from the buyer.
#[derive(Clone, Debug)]
pub struct CheckoutServiceRequest {
    pub user_id: String,
    pub user_currency: String,
    pub address: Address,
    pub email: String,
    pub credit_card: CreditCardInfo,
}

/// What a successful checkout gives back.
#[derive(Clone, Debug)]
pub struct CheckoutServiceResponse {
    pub order: OrderResult,
}

/// The call that a checkout waits on.
#[derive(Clone, Copy, Debug, PartialEq, Eq, Structural)]
pub enum CheckoutStage {
    FetchingCart,
    FetchingProduct,
    ConvertingPrice,
    Quoting,
    ConvertingShipping,
    Charging,
    Shipping,
    EmptyingCart,
    Confirming,
    Finished,
}

/// The next call to make, or the end of the checkout.
pub enum CheckoutAction {
    GetCart { user_id: String },
    GetProduct { product_id: String },
    Convert { from: Money, to: String },
    GetQuote { address: Address, items: Vec<CartItem> },
    Charge { amount: Money, credit_card: CreditCardInfo },
    ShipOrder { address: Address, items: Vec<CartItem> },
    EmptyCart { user_id: String },
    SendOrderConfirmation { email: String, order: OrderResult },
    Finish(Result<CheckoutServiceResponse, CheckoutError>),
}

/// One checkout in progress.
pub struct CheckoutSaga {
    pub request: CheckoutServiceRequest,
    pub order_id: String,
    pub stage: CheckoutStage,
    pub cart_items: Vec<CartItem>,
    /// The priced items, in cart order; one per cart item once all are priced.
    pub order_items: Vec<OrderItem>,
    /// The shipping cost in the buyer's currency, once converted.
    pub shipping_cost: Money,
    /// The tracking id of the shipment, once dispatched.
    pub shipping_tracking_id: String,
}

/// The total of an order: the shipping cost, then each item's quantity times
/// its unit cost, added left to right.
pub open spec fn order_total_spec(shipping: MoneyView, items: Seq<OrderItem>) -> Result<
    MoneyView,
    MoneyError,
>
    decreases items.len(),
{
    if items.len() == 0 {
        Ok(shipping)
    } else {
        match order_total_spec(shipping, items.drop_last()) {
            Ok(acc) => match scale_spec(items.last().item.quantity as nat, items.last().cost@) {
                Ok(line) => add_spec(acc, line),
                Err(e) => Err(e),
            },
            Err(e) => Err(e),
        }
    }
}

/// The checkout error for a money error.
pub open spec fn checkout_error_of(e: MoneyError) -> CheckoutError {
    match e {
        MoneyError::CurrencyMismatch => CheckoutError::CurrencyMismatch,
        MoneyError::Overflow => CheckoutError::AmountOutOfRange,
    }
}

/// The amount to charge for an order whose buyer pays in `currency`.
pub open spec fn charge_spec(currency: Seq<char>, shipping: MoneyView, items: Seq<OrderItem>) -> Result<
    MoneyView,
    CheckoutError,
> {
    if shipping.currency != currency {
        Err(CheckoutError::CurrencyMismatch)
    } else {
        match order_total_spec(shipping, items) {
            Ok(t) => Ok(t),
            Err(e) => Err(checkout_error_of(e)),
        }
    }
}

fn checkout_error_from(e: MoneyError) -> (r: CheckoutError)
    ensures
        r == checkout_error_of(e),
{
    match e {
        MoneyError::CurrencyMismatch => CheckoutError::CurrencyMismatch,
        MoneyError::Overflow => CheckoutError::AmountOutOfRange,
    }
}

/// The amount to charge: the shipping cost plus each item's quantity times
/// its unit cost, all in `currency`.
pub fn order_total(currency: &String, shipping: &Money, items: &Vec<OrderItem>) -> (r: Result<
    Money,
    CheckoutError,
>)
    ensures
        match r {
            Ok(m) => charge_spec(currency@, shipping@, items@) == Ok::<MoneyView, CheckoutError>(
                m@,
            ),
            Err(e) => charge_spec(currency@, shipping@, items@) == Err::<MoneyView, CheckoutError>(
                e,
            ),
        },
{
    if !(shipping.currency_code == *currency) {
        return Err(CheckoutError::CurrencyMismatch);
    }
    let mut acc = shipping.duplicate();
    let mut i: usize = 0;
    while i < items.len()
        invariant
            i <= items@.len(),
            shipping@.currency == currency@,
            order_total_spec(shipping@, items@.subrange(0, i as int)) == Ok::<
                MoneyView,
                MoneyError,
            >(acc@),
        decreases items.len() - i,
    {
        proof {
            assert(items@.subrange(0, i + 1).drop_last() =~= items@.subrange(0, i as int));
        }
        let step = match Money::scale(items[i].item.quantity, &items[i].cost) {
            Ok(line) => acc.add(&line),
            Err(e) => Err(e),
        };
        match step {
            Ok(next) => {
                acc = next;
            },
            Err(e) => {
                proof {
                    let prefix = items@.subrange(0, i + 1);
                    assert(prefix.last() == items@[i as int]);
                    assert(order_total_spec(shipping@, prefix) == Err::<MoneyView, MoneyError>(e));
                    lemma_total_error_persists(shipping@, items@, i + 1);
                }
                return Err(checkout_error_from(e));
            },
        }
        i += 1;
    }
    proof {
        assert(items@.subrange(0, items@.len() as int) =~= items@);
    }
    Ok(acc)
}

proof fn lemma_total_error_persists(shipping: MoneyView, items: Seq<OrderItem>, k: int)
    requires
        1 <= k <= items.len(),
        order_total_spec(shipping, items.subrange(0, k)) is Err,
    ensures
        order_total_spec(shipping, items) == order_total_spec(shipping, items.subrange(0, k)),
    decreases items.len(),
{
    if items.len() > k {
        assert(items.drop_last().subrange(0, k) =~= items.subrange(0, k));
        lemma_total_error_persists(shipping, items.drop_last(), k);
    } else {
        assert(items.subrange(0, k) =~= items);
    }
}

/// Each item's quantity times its unit cost, summed, in nano-units.
pub open spec fn lines_total(items: Seq<OrderItem>) -> int
    decreases items.len(),
{
    if items.len() == 0 {
        0
    } else {
        lines_total(items.drop_last()) + items.last().item.quantity * items.last().cost@.total()
    }
}

/// An order total, where it can be computed, is the shipping cost plus each
/// item's quantity times its unit cost, in the currency of the shipping cost.
pub proof fn order_total_value(shipping: MoneyView, items: Seq<OrderItem>)
    ensures
        order_total_spec(shipping, items) matches Ok(t) ==> t.total() == shipping.total()
            + lines_total(items) && t.currency == shipping.currency,
    decreases items.len(),
{
    if items.len() > 0 {
        order_total_value(shipping, items.drop_last());
    }
}

/// `o` is the receipt of the order that `s` has placed.
pub open spec fn is_receipt_of(o: OrderResult, s: CheckoutSaga) -> bool {
    &&& o.order_id == s.order_id
    &&& o.shipping_tracking_id == s.shipping_tracking_id
    &&& o.shipping_cost == s.shipping_cost
    &&& o.shipping_address == s.request.address
    &&& o.items@ == s.order_items@
}

impl CheckoutSaga {
    /// The priced items match the cart item for item, and the stage agrees
    /// with how many are priced.
    pub open spec fn wf(&self) -> bool {
        &&& self.order_items@.len() <= self.cart_items@.len()
        &&& forall|j: int|
            0 <= j < self.order_items@.len() ==> self.order_items@[j].item == self.cart_items@[j]
        &&& (self.stage == CheckoutStage::FetchingProduct || self.stage
            == CheckoutStage::ConvertingPrice) ==> self.order_items@.len() < self.cart_items@.len()
        &&& (self.stage != CheckoutStage::FetchingCart && self.stage
            != CheckoutStage::FetchingProduct && self.stage != CheckoutStage::ConvertingPrice
            && self.stage != CheckoutStage::Finished) ==> self.order_items@.len()
            == self.cart_items@.len()
    }

    /// Everything but the stage is as in `other`.
    pub open spec fn same_progress(&self, other: CheckoutSaga) -> bool {
        &&& self.request == other.request
        &&& self.order_id == other.order_id
        &&& self.cart_items@ == other.cart_items@
        &&& self.order_items@ == other.order_items@
        &&& self.shipping_cost == other.shipping_cost
        &&& self.shipping_tracking_id == other.shipping_tracking_id
    }

    /// Starts a checkout under the order id `order_id`: the first call
    /// fetches the buyer's cart.
    pub fn start(request: CheckoutServiceRequest, order_id: String) -> (r: (
        CheckoutSaga,
        CheckoutAction,
    ))
        ensures
            r.0.wf(),
            r.0.stage == CheckoutStage::FetchingCart,
            r.0.request == request,
            r.0.order_id == order_id,
            r.0.cart_items@.len() == 0,
            r.0.order_items@.len() == 0,
            r.1 matches CheckoutAction::GetCart { user_id } && user_id == request.user_id,
    {
        let user_id = request.user_id.clone();
        let saga = CheckoutSaga {
            request,
            order_id,
            stage: CheckoutStage::FetchingCart,
            cart_items: Vec::new(),
            order_items: Vec::new(),
            shipping_cost: Money::default(),
            shipping_tracking_id: String::new(),
        };
        (saga, CheckoutAction::GetCart { user_id })
    }

    /// Starts a checkout under a fresh random order id.
    pub fn begin(request: CheckoutServiceRequest) -> (r: (CheckoutSaga, CheckoutAction))
        ensures
            r.0.wf(),
            r.0.stage == CheckoutStage::FetchingCart,
            r.0.request == request,
            r.0.order_id@.len() == 36,
            r.0.cart_items@.len() == 0,
            r.0.order_items@.len() == 0,
            r.1 matches CheckoutAction::GetCart { user_id } && user_id == request.user_id,
    {
        let order_id = crate::ids::fresh_id();
        CheckoutSaga::start(request, order_id)
    }

    /// The call that prices the next cart item, or the shipping quote once
    /// all are priced.
    fn next_lookup(&mut self) -> (r: CheckoutAction)
        requires
            old(self).order_items@.len() <= old(self).cart_items@.len(),
        ensures
            final(self).same_progress(*old(self)),
            old(self).order_items@.len() < old(self).cart_items@.len() ==> final(self).stage
                == CheckoutStage::FetchingProduct && (r matches CheckoutAction::GetProduct {
                product_id,
            } && product_id == old(self).cart_items@[old(self).order_items@.len() as int].product_id),
            old(self).order_items@.len() == old(self).cart_items@.len() ==> final(self).stage
                == CheckoutStage::Quoting && (r matches CheckoutAction::GetQuote { address, items }
                && address == old(self).request.address && items@ == old(self).cart_items@),
    {
        let k = self.order_items.len();
        if k < self.cart_items.len() {
            self.stage = CheckoutStage::FetchingProduct;
            CheckoutAction::GetProduct { product_id: self.cart_items[k].product_id.clone() }
        } else {
            self.stage = CheckoutStage::Quoting;
            CheckoutAction::GetQuote {
                address: self.request.address.duplicate(),
                items: duplicate_items(&self.cart_items),
            }
        }
    }

    /// Ends the checkout with an error.
    fn fail(&mut self, e: CheckoutError) -> (r: CheckoutAction)
        ensures
            final(self).same_progress(*old(self)),
            final(self).stage == CheckoutStage::Finished,
            r matches CheckoutAction::Finish(Err(x)) && x == e,
    {
        self.stage = CheckoutStage::Finished;
        CheckoutAction::Finish(Err(e))
    }

    /// The cart arrived, or could not be fetched (`None`).
    pub fn cart_received(&mut self, reply: Option<Vec<CartItem>>) -> (r: CheckoutAction)
        requires
            old(self).wf(),
            old(self).stage == CheckoutStage::FetchingCart,
        ensures
            final(self).wf(),
            reply is None ==> final(self).same_progress(*old(self)) && final(self).stage
                == CheckoutStage::Finished && (r matches CheckoutAction::Finish(Err(e)) && e
                == CheckoutError::CartUnavailable),
            reply matches Some(items) ==> {
                &&& final(self).request == old(self).request
                &&& final(self).order_id == old(self).order_id
                &&& final(self).cart_items@ == items@
                &&& final(self).order_items@.len() == 0
                &&& items@.len() > 0 ==> final(self).stage == CheckoutStage::FetchingProduct && (
                r matches CheckoutAction::GetProduct { product_id } && product_id
                    == items@[0].product_id)
                &&& items@.len() == 0 ==> final(self).stage == CheckoutStage::Quoting && (
                r matches CheckoutAction::GetQuote { address, items: quoted } && address
                    == old(self).request.address && quoted@.len() == 0)
            },
    {
        match reply {
            None => self.fail(CheckoutError::CartUnavailable),
            Some(items) => {
                self.cart_items = items;
                self.order_items = Vec::new();
                self.next_lookup()
            },
        }
    }

    /// The product of the next cart item arrived, or could not be looked up
    /// (`None`).
    pub fn product_received(&mut self, reply: Option<Product>) -> (r: CheckoutAction)
        requires
            old(self).wf(),
            old(self).stage == CheckoutStage::FetchingProduct,
        ensures
            final(self).wf(),
            final(self).same_progress(*old(self)),
            reply is None ==> final(self).stage == CheckoutStage::Finished && (
            r matches CheckoutAction::Finish(Err(e)) && e == CheckoutError::ProductLookupFailed),
            reply matches Some(p) ==> final(self).stage == CheckoutStage::ConvertingPrice && (
            r matches CheckoutAction::Convert { from, to } && from == p.price_usd && to
                == old(self).request.user_currency),
    {
        match reply {
            None => self.fail(CheckoutError::ProductLookupFailed),
            Some(p) => {
                self.stage = CheckoutStage::ConvertingPrice;
                CheckoutAction::Convert { from: p.price_usd, to: self.request.user_currency.clone() }
            },
        }
    }

    /// The price of the next cart item in the buyer's currency arrived, or
    /// could not be converted (`None`).
    pub fn price_converted(&mut self, reply: Option<Money>) -> (r: CheckoutAction)
        requires
            old(self).wf(),
            old(self).stage == CheckoutStage::ConvertingPrice,
        ensures
            final(self).wf(),
            reply is None ==> final(self).same_progress(*old(self)) && final(self).stage
                == CheckoutStage::Finished && (r matches CheckoutAction::Finish(Err(e)) && e
                == CheckoutError::UnsupportedCurrency),
            reply matches Some(cost) ==> {
                let k = old(self).order_items@.len() as int;
                &&& final(self).request == old(self).request
                &&& final(self).order_id == old(self).order_id
                &&& final(self).cart_items@ == old(self).cart_items@
                &&& final(self).order_items@ == old(self).order_items@.push(
                    OrderItem { item: old(self).cart_items@[k], cost },
                )
                &&& k + 1 < old(self).cart_items@.len() ==> final(self).stage
                    == CheckoutStage::FetchingProduct && (r matches CheckoutAction::GetProduct {
                    product_id,
                } && product_id == old(self).cart_items@[k + 1].product_id)
                &&& k + 1 == old(self).cart_items@.len() ==> final(self).stage
                    == CheckoutStage::Quoting && (r matches CheckoutAction::GetQuote {
                    address,
                    items,
                } && address == old(self).request.address && items@ == old(self).cart_items@)
            },
    {
        match reply {
            None => self.fail(CheckoutError::UnsupportedCurrency),
            Some(cost) => {
                let k = self.order_items.len();
                let item = self.cart_items[k].duplicate();
                self.order_items.push(OrderItem { item, cost });
                self.next_lookup()
            },
        }
    }

    /// The shipping quote in US dollars arrived, or shipping could not be
    /// quoted (`None`).
    pub fn quote_received(&mut self, reply: Option<Money>) -> (r: CheckoutAction)
        requires
            old(self).wf(),
            old(self).stage == CheckoutStage::Quoting,
        ensures
            final(self).wf(),
            final(self).same_progress(*old(self)),
            reply is None ==> final(self).stage == CheckoutStage::Finished && (
            r matches CheckoutAction::Finish(Err(e)) && e == CheckoutError::ShippingFailed),
            reply matches Some(quote) ==> final(self).stage == CheckoutStage::ConvertingShipping
                && (r matches CheckoutAction::Convert { from, to } && from == quote && to
                == old(self).request.user_currency),
    {
        match reply {
            None => self.fail(CheckoutError::ShippingFailed),
            Some(quote) => {
                self.stage = CheckoutStage::ConvertingShipping;
                CheckoutAction::Convert { from: quote, to: self.request.user_currency.clone() }
            },
        }
    }

    /// The shipping cost in the buyer's currency arrived, or could not be
    /// converted (`None`). On success the card is charged for the total.
    pub fn shipping_converted(&mut self, reply: Option<Money>) -> (r: CheckoutAction)
        requires
            old(self).wf(),
            old(self).stage == CheckoutStage::ConvertingShipping,
        ensures
            final(self).wf(),
            reply is None ==> final(self).same_progress(*old(self)) && final(self).stage
                == CheckoutStage::Finished && (r matches CheckoutAction::Finish(Err(e)) && e
                == CheckoutError::UnsupportedCurrency),
            reply matches Some(cost) ==> {
                let charge = charge_spec(
                    old(self).request.user_currency@,
                    cost@,
                    old(self).order_items@,
                );
                &&& final(self).request == old(self).request
                &&& final(self).order_id == old(self).order_id
                &&& final(self).cart_items@ == old(self).cart_items@
                &&& final(self).order_items@ == old(self).order_items@
                &&& final(self).shipping_cost == cost
                &&& charge matches Err(e) ==> final(self).stage == CheckoutStage::Finished && (
                r matches CheckoutAction::Finish(Err(x)) && x == e)
                &&& charge matches Ok(total) ==> final(self).stage == CheckoutStage::Charging && (
                r matches CheckoutAction::Charge { amount, credit_card } && amount@ == total
                    && credit_card == old(self).request.credit_card)
            },
    {
        match reply {
            None => self.fail(CheckoutError::UnsupportedCurrency),
            Some(cost) => {
                let total = order_total(&self.request.user_currency, &cost, &self.order_items);
                self.shipping_cost = cost;
                match total {
                    Err(e) => self.fail(e),
                    Ok(amount) => {
                        self.stage = CheckoutStage::Charging;
                        CheckoutAction::Charge {
                            amount,
                            credit_card: self.request.credit_card.duplicate(),
                        }
                    },
                }
            },
        }
    }

    /// The card was charged (`Some` transaction id) or declined (`None`).
    pub fn charge_completed(&mut self, reply: Option<String>) -> (r: CheckoutAction)
        requires
            old(self).wf(),
            old(self).stage == CheckoutStage::Charging,
        ensures
            final(self).wf(),
            final(self).same_progress(*old(self)),
            reply is None ==> final(self).stage == CheckoutStage::Finished && (
            r matches CheckoutAction::Finish(Err(e)) && e == CheckoutError::PaymentDeclined),
            reply is Some ==> final(self).stage == CheckoutStage::Shipping && (
            r matches CheckoutAction::ShipOrder { address, items } && address
                == old(self).request.address && items@ == old(self).cart_items@),
    {
        match reply {
            None => self.fail(CheckoutError::PaymentDeclined),
            Some(_) => {
                self.stage = CheckoutStage::Shipping;
                CheckoutAction::ShipOrder {
                    address: self.request.address.duplicate(),
                    items: duplicate_items(&self.cart_items),
                }
            },
        }
    }

    /// The shipment was dispatched (`Some` tracking id) or not (`None`).
    /// A failure here leaves the card charged.
    pub fn shipment_completed(&mut self, reply: Option<String>) -> (r: CheckoutAction)
        requires
            old(self).wf(),
            old(self).stage == CheckoutStage::Shipping,
        ensures
            final(self).wf(),
            reply is None ==> final(self).same_progress(*old(self)) && final(self).stage
                == CheckoutStage::Finished && (r matches CheckoutAction::Finish(Err(e)) && e
                == CheckoutError::ShippingFailed),
            reply matches Some(tracking_id) ==> {
                &&& final(self).request == old(self).request
                &&& final(self).order_id == old(self).order_id
                &&& final(self).cart_items@ == old(self).cart_items@
                &&& final(self).order_items@ == old(self).order_items@
                &&& final(self).shipping_cost == old(self).shipping_cost
                &&& final(self).shipping_tracking_id == tracking_id
                &&& final(self).stage == CheckoutStage::EmptyingCart
                &&& r matches CheckoutAction::EmptyCart { user_id } && user_id
                    == old(self).request.user_id
            },
    {
        match reply {
            None => self.fail(CheckoutError::ShippingFailed),
            Some(tracking_id) => {
                self.shipping_tracking_id = tracking_id;
                self.stage = CheckoutStage::EmptyingCart;
                CheckoutAction::EmptyCart { user_id: self.request.user_id.clone() }
            },
        }
    }

    /// The receipt of the order placed so far.
    fn receipt(&self) -> (r: OrderResult)
        ensures
            is_receipt_of(r, *self),
    {
        let mut items: Vec<OrderItem> = Vec::new();
        let mut i: usize = 0;
        while i < self.order_items.len()
            invariant
                i <= self.order_items@.len(),
                items@ == self.order_items@.subrange(0, i as int),
            decreases self.order_items.len() - i,
        {
            items.push(self.order_items[i].duplicate());
            i += 1;
        }
        proof {
            assert(items@ =~= self.order_items@);
        }
        OrderResult {
            order_id: self.order_id.clone(),
            shipping_tracking_id: self.shipping_tracking_id.clone(),
            shipping_cost: self.shipping_cost.duplicate(),
            shipping_address: self.request.address.duplicate(),
            items,
        }
    }

    /// The attempt to empty the cart is over, whether or not it succeeded:
    /// the confirmation is sent next.
    pub fn cart_emptied(&mut self) -> (r: CheckoutAction)
        requires
            old(self).wf(),
            old(self).stage == CheckoutStage::EmptyingCart,
        ensures
            final(self).wf(),
            final(self).same_progress(*old(self)),
            final(self).stage == CheckoutStage::Confirming,
            r matches CheckoutAction::SendOrderConfirmation { email, order } && email
                == old(self).request.email && is_receipt_of(order, *old(self)),
    {
        let order = self.receipt();
        self.stage = CheckoutStage::Confirming;
        CheckoutAction::SendOrderConfirmation { email: self.request.email.clone(), order }
    }

    /// The attempt to send the confirmation is over, whether or not it
    /// succeeded: the checkout ends with the receipt.
    pub fn confirmation_sent(&mut self) -> (r: CheckoutAction)
        requires
            old(self).wf(),
            old(self).stage == CheckoutStage::Confirming,
        ensures
            final(self).wf(),
            final(self).same_progress(*old(self)),
            final(self).stage == CheckoutStage::Finished,
            r matches CheckoutAction::Finish(Ok(response)) && is_receipt_of(
                response.order,
                *old(self),
            ),
    {
        let order = self.receipt();
        self.stage = CheckoutStage::Finished;
        CheckoutAction::Finish(Ok(CheckoutServiceResponse { order }))
    }
}

} // verus!
