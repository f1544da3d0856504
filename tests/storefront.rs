use boutique::cart::{CartData, CartError};
use boutique::money::Money;
use boutique::storefront::{recommended_products, unrelated_ads};
use boutique::types::{Ad, CartItem, Product};

fn item(id: &str, quantity: u32) -> CartItem {
    CartItem { product_id: id.to_string(), quantity }
}

fn lines(c: &CartData) -> Vec<(String, u32)> {
    c.items.iter().map(|i| (i.product_id.clone(), i.quantity)).collect()
}

fn product(id: &str) -> Product {
    Product {
        id: id.to_string(),
        name: format!("name of {id}"),
        description: String::new(),
        picture: String::new(),
        price_usd: Money::from_usd(1, 0),
        categories: Vec::new(),
    }
}

#[test]
fn cart_adds_new_products_at_the_end() {
    let mut c = CartData::default();
    c.add_item(item("A", 2)).unwrap();
    c.add_item(item("B", 1)).unwrap();
    assert_eq!(lines(&c), vec![("A".to_string(), 2), ("B".to_string(), 1)]);
    assert_eq!(c.version, 0);
}

#[test]
fn cart_merges_quantities_of_one_product() {
    let mut c = CartData::default();
    c.add_item(item("A", 2)).unwrap();
    c.add_item(item("B", 1)).unwrap();
    c.add_item(item("A", 5)).unwrap();
    assert_eq!(lines(&c), vec![("A".to_string(), 7), ("B".to_string(), 1)]);
}

#[test]
fn cart_rejects_quantity_overflow() {
    let mut c = CartData::default();
    c.add_item(item("A", u32::MAX)).unwrap();
    assert_eq!(c.add_item(item("A", 1)), Err(CartError::QuantityOverflow));
    assert_eq!(lines(&c), vec![("A".to_string(), u32::MAX)]);
}

#[test]
fn cart_empty_clears_and_counts() {
    let mut c = CartData::default();
    c.add_item(item("A", 2)).unwrap();
    c.empty();
    assert!(c.items.is_empty());
    assert_eq!(c.version, 1);
    let mut full = CartData { version: u32::MAX, items: Vec::new() };
    full.empty();
    assert_eq!(full.version, u32::MAX);
}

#[test]
fn cart_record_to_cart() {
    let mut c = CartData::default();
    c.add_item(item("A", 3)).unwrap();
    let cart = c.to_cart("user-9".to_string());
    assert_eq!(cart.user_id, "user-9");
    assert_eq!(cart.items.len(), 1);
    assert_eq!((cart.items[0].product_id.as_str(), cart.items[0].quantity), ("A", 3));
}

#[test]
fn recommended_products_follow_ids() {
    let products = vec![product("A"), product("B"), product("C")];
    let ids = vec!["C".to_string(), "X".to_string(), "A".to_string()];
    let r: Vec<String> = recommended_products(&ids, &products).into_iter().map(|p| p.id).collect();
    assert_eq!(r, vec!["C", "A"]);
}

#[test]
fn recommended_products_take_first_duplicate() {
    let mut second = product("A");
    second.name = "second".to_string();
    let products = vec![product("A"), second];
    let r = recommended_products(&vec!["A".to_string()], &products);
    assert_eq!(r.len(), 1);
    assert_eq!(r[0].name, "name of A");
}

#[test]
fn ads_linking_to_the_product_are_dropped() {
    let ads = vec![
        Ad::new("/product/66VCHSJNUP", "Tank top"),
        Ad::new("/product/1YMWWN1N4O", "Watch"),
        Ad::new("66VCHSJNUP", "Tank top again"),
    ];
    let r: Vec<String> = unrelated_ads(&ads, "66VCHSJNUP").into_iter().map(|a| a.text).collect();
    assert_eq!(r, vec!["Watch"]);
    assert_eq!(unrelated_ads(&ads, "ZZZ").len(), 3);
}
