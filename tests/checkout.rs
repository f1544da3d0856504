use boutique::checkout::{
    order_total, CheckoutAction, CheckoutError, CheckoutSaga, CheckoutServiceRequest,
    CheckoutStage,
};
use boutique::currency::CurrencyService;
use boutique::money::Money;
use boutique::types::{Address, CartItem, CreditCardInfo, OrderItem, OrderResult, Product};

/// Collaborators played by the test, with a record of the calls made.
struct Fakes {
    cart: Option<Vec<CartItem>>,
    products: Vec<Product>,
    rates: CurrencyService,
    quote: Option<Money>,
    decline_payment: bool,
    fail_shipment: bool,
    fail_empty_cart: bool,
    fail_email: bool,
    charged: Vec<Money>,
    shipments: usize,
    carts_emptied: usize,
    emails: usize,
}

fn fakes(cart: Vec<CartItem>) -> Fakes {
    let mut rates = CurrencyService::new();
    rates.set_rate("EUR".to_string(), 1_000_000_000);
    rates.set_rate("USD".to_string(), 1_130_500_000);
    Fakes {
        cart: Some(cart),
        products: vec![
            product("A", Money::from_usd(10, 0)),
            product("B", Money::from_usd(0, 99)),
        ],
        rates,
        quote: Some(Money::from_usd(3, 50)),
        decline_payment: false,
        fail_shipment: false,
        fail_empty_cart: false,
        fail_email: false,
        charged: Vec::new(),
        shipments: 0,
        carts_emptied: 0,
        emails: 0,
    }
}

fn product(id: &str, price: Money) -> Product {
    Product {
        id: id.to_string(),
        name: format!("product {id}"),
        description: String::new(),
        picture: String::new(),
        price_usd: price,
        categories: Vec::new(),
    }
}

fn item(id: &str, quantity: u32) -> CartItem {
    CartItem { product_id: id.to_string(), quantity }
}

fn request(currency: &str) -> CheckoutServiceRequest {
    CheckoutServiceRequest {
        user_id: "user-1".to_string(),
        user_currency: currency.to_string(),
        address: Address {
            street_address: "1 Main St".to_string(),
            city: "Springfield".to_string(),
            state: "IL".to_string(),
            country: "US".to_string(),
            zip_code: 62701,
        },
        email: "buyer@example.com".to_string(),
        credit_card: CreditCardInfo {
            credit_card_number: "4432801561520454".to_string(),
            credit_card_ccv: 672,
            credit_card_expiration_year: 2039,
            credit_card_expiration_month: 1,
        },
    }
}

/// Runs a checkout to its end, performing each call against the fakes.
fn run(f: &mut Fakes, req: CheckoutServiceRequest) -> Result<OrderResult, CheckoutError> {
    let (mut saga, mut action) = CheckoutSaga::start(req, "order-1".to_string());
    loop {
        action = match action {
            CheckoutAction::GetCart { user_id } => {
                assert_eq!(user_id, "user-1");
                saga.cart_received(f.cart.clone())
            }
            CheckoutAction::GetProduct { product_id } => {
                let p = f.products.iter().find(|p| p.id == product_id).cloned();
                saga.product_received(p)
            }
            CheckoutAction::Convert { from, to } => {
                let r = f.rates.convert(&from, &to).ok();
                match saga.stage {
                    CheckoutStage::ConvertingPrice => saga.price_converted(r),
                    _ => saga.shipping_converted(r),
                }
            }
            CheckoutAction::GetQuote { .. } => saga.quote_received(f.quote.clone()),
            CheckoutAction::Charge { amount, .. } => {
                f.charged.push(amount);
                let reply = if f.decline_payment { None } else { Some("tx-1".to_string()) };
                saga.charge_completed(reply)
            }
            CheckoutAction::ShipOrder { .. } => {
                f.shipments += 1;
                let reply = if f.fail_shipment { None } else { Some("track-1".to_string()) };
                saga.shipment_completed(reply)
            }
            CheckoutAction::EmptyCart { .. } => {
                if !f.fail_empty_cart {
                    f.carts_emptied += 1;
                }
                saga.cart_emptied()
            }
            CheckoutAction::SendOrderConfirmation { email, .. } => {
                assert_eq!(email, "buyer@example.com");
                if !f.fail_email {
                    f.emails += 1;
                }
                saga.confirmation_sent()
            }
            CheckoutAction::Finish(r) => return r.map(|resp| resp.order),
        };
    }
}

fn amount(m: &Money) -> (String, i64, i32) {
    (m.currency_code.clone(), m.units, m.nanos)
}

#[test]
fn checkout_single_item_in_dollars() {
    let mut f = fakes(vec![item("A", 2)]);
    let order = run(&mut f, request("USD")).unwrap();
    assert_eq!(f.charged.len(), 1);
    assert_eq!(amount(&f.charged[0]), ("USD".to_string(), 23, 500_000_000));
    assert_eq!(amount(&order.shipping_cost), ("USD".to_string(), 3, 500_000_000));
    assert_eq!(order.items.len(), 1);
    assert_eq!(order.items[0].item.product_id, "A");
    assert_eq!(order.items[0].item.quantity, 2);
    assert_eq!(amount(&order.items[0].cost), ("USD".to_string(), 10, 0));
    assert_eq!(order.order_id, "order-1");
    assert_eq!(order.shipping_tracking_id, "track-1");
    assert_eq!(order.shipping_address.city, "Springfield");
    assert_eq!((f.shipments, f.carts_emptied, f.emails), (1, 1, 1));
}

#[test]
fn checkout_payment_declined() {
    let mut f = fakes(vec![item("A", 2)]);
    f.decline_payment = true;
    assert_eq!(run(&mut f, request("USD")).unwrap_err(), CheckoutError::PaymentDeclined);
    assert_eq!(f.charged.len(), 1);
    assert_eq!(f.shipments, 0);
    assert_eq!(f.carts_emptied, 0);
    assert_eq!(f.emails, 0);
}

#[test]
fn checkout_shipping_fails_after_payment() {
    let mut f = fakes(vec![item("A", 1)]);
    f.fail_shipment = true;
    assert_eq!(run(&mut f, request("USD")).unwrap_err(), CheckoutError::ShippingFailed);
    assert_eq!(f.charged.len(), 1);
    assert_eq!(f.shipments, 1);
    assert_eq!(f.carts_emptied, 0);
}

#[test]
fn checkout_succeeds_when_notification_fails() {
    let mut f = fakes(vec![item("A", 2)]);
    f.fail_email = true;
    let order = run(&mut f, request("USD")).unwrap();
    assert_eq!(f.emails, 0);
    assert_eq!(order.items.len(), 1);
    assert_eq!(order.shipping_tracking_id, "track-1");
}

#[test]
fn checkout_succeeds_when_emptying_cart_fails() {
    let mut f = fakes(vec![item("A", 2)]);
    f.fail_empty_cart = true;
    let order = run(&mut f, request("USD")).unwrap();
    assert_eq!(f.carts_emptied, 0);
    assert_eq!(order.shipping_tracking_id, "track-1");
}

#[test]
fn checkout_empty_cart_charges_shipping_only() {
    let mut f = fakes(Vec::new());
    let order = run(&mut f, request("USD")).unwrap();
    assert!(order.items.is_empty());
    assert_eq!(amount(&f.charged[0]), amount(&order.shipping_cost));
    assert_eq!(amount(&f.charged[0]), ("USD".to_string(), 3, 500_000_000));
}

#[test]
fn checkout_empty_cart_in_euros() {
    let mut f = fakes(Vec::new());
    let order = run(&mut f, request("EUR")).unwrap();
    assert_eq!(amount(&f.charged[0]), amount(&order.shipping_cost));
    assert_eq!(order.shipping_cost.currency_code, "EUR");
}

#[test]
fn checkout_converts_into_user_currency() {
    let mut f = fakes(vec![item("A", 1), item("B", 3)]);
    let order = run(&mut f, request("EUR")).unwrap();
    // 10 USD = 8.845643520 EUR; 0.99 USD = 0.875718708 EUR; 3.50 USD = 3.095975232 EUR
    assert_eq!(amount(&order.items[0].cost), ("EUR".to_string(), 8, 845_643_520));
    assert_eq!(amount(&order.items[1].cost), ("EUR".to_string(), 0, 875_718_708));
    assert_eq!(amount(&order.shipping_cost), ("EUR".to_string(), 3, 95_975_232));
    assert_eq!(amount(&f.charged[0]), ("EUR".to_string(), 14, 568_774_876));
}

#[test]
fn checkout_cart_unavailable() {
    let mut f = fakes(Vec::new());
    f.cart = None;
    assert_eq!(run(&mut f, request("USD")).unwrap_err(), CheckoutError::CartUnavailable);
    assert!(f.charged.is_empty());
}

#[test]
fn checkout_unknown_product() {
    let mut f = fakes(vec![item("A", 1), item("Z", 1)]);
    assert_eq!(run(&mut f, request("USD")).unwrap_err(), CheckoutError::ProductLookupFailed);
    assert!(f.charged.is_empty());
}

#[test]
fn checkout_unsupported_currency() {
    let mut f = fakes(vec![item("A", 1)]);
    assert_eq!(run(&mut f, request("XXX")).unwrap_err(), CheckoutError::UnsupportedCurrency);
    assert!(f.charged.is_empty());
}

#[test]
fn checkout_quote_unavailable() {
    let mut f = fakes(vec![item("A", 1)]);
    f.quote = None;
    assert_eq!(run(&mut f, request("USD")).unwrap_err(), CheckoutError::ShippingFailed);
    assert!(f.charged.is_empty());
}

#[test]
fn order_total_rejects_mismatched_currency() {
    let shipping = Money::from_usd(3, 50);
    let items = vec![OrderItem {
        item: item("A", 1),
        cost: Money { currency_code: "EUR".to_string(), units: 1, nanos: 0 },
    }];
    assert_eq!(
        order_total(&"USD".to_string(), &shipping, &items).unwrap_err(),
        CheckoutError::CurrencyMismatch
    );
    assert_eq!(
        order_total(&"EUR".to_string(), &shipping, &Vec::new()).unwrap_err(),
        CheckoutError::CurrencyMismatch
    );
}

#[test]
fn order_total_reports_overflow() {
    let shipping = Money::from_usd(0, 0);
    let items = vec![OrderItem {
        item: item("A", u32::MAX),
        cost: Money { currency_code: "USD".to_string(), units: i64::MAX, nanos: 0 },
    }];
    assert_eq!(
        order_total(&"USD".to_string(), &shipping, &items).unwrap_err(),
        CheckoutError::AmountOutOfRange
    );
}

#[test]
fn order_total_multiplies_quantities() {
    let shipping = Money::from_usd(5, 0);
    let items = vec![
        OrderItem { item: item("A", 3), cost: Money::from_usd(1, 25) },
        OrderItem { item: item("B", 2), cost: Money::from_usd(0, 60) },
    ];
    let t = order_total(&"USD".to_string(), &shipping, &items).unwrap();
    assert_eq!(amount(&t), ("USD".to_string(), 9, 950_000_000));
}

#[test]
fn begin_makes_fresh_order_ids() {
    let (a, action) = CheckoutSaga::begin(request("USD"));
    let (b, _) = CheckoutSaga::begin(request("USD"));
    assert_eq!(a.order_id.len(), 36);
    assert_ne!(a.order_id, b.order_id);
    assert!(matches!(action, CheckoutAction::GetCart { .. }));
}
