use boutique::ads::{AdService, MAX_ADS_TO_SERVE};
use boutique::catalog::{product_matches, CatalogError, ProductCatalogService};
use boutique::money::Money;
use boutique::services::{
    first_recommendations, EmailError, EmailService, PaymentService, RecommendationService,
    ShippingService,
};
use boutique::text::contains;
use boutique::types::{Ad, Address, CreditCardInfo, OrderResult, Product};

fn product(id: &str, name: &str, description: &str) -> Product {
    Product {
        id: id.to_string(),
        name: name.to_string(),
        description: description.to_string(),
        picture: format!("/static/img/{id}.jpg"),
        price_usd: Money::from_usd(19, 99),
        categories: vec!["kitchen".to_string()],
    }
}

fn catalogue() -> ProductCatalogService {
    ProductCatalogService::new(vec![
        product("OLJCESPC7Z", "Sunglasses", "Add a modern touch to your outfits."),
        product("66VCHSJNUP", "Tank Top", "Perfectly cropped cotton tank."),
        product("9SIQT8TOJO", "Bamboo Glass Jar", "This bamboo glass jar can hold 57 oz."),
    ])
}

fn address() -> Address {
    Address {
        street_address: "1600 Amphitheatre Parkway".to_string(),
        city: "Mountain View".to_string(),
        state: "CA".to_string(),
        country: "US".to_string(),
        zip_code: 94043,
    }
}

#[test]
fn list_products_in_order() {
    let ids: Vec<String> = catalogue().list_products().into_iter().map(|p| p.id).collect();
    assert_eq!(ids, vec!["OLJCESPC7Z", "66VCHSJNUP", "9SIQT8TOJO"]);
}

#[test]
fn get_product_by_id() {
    let p = catalogue().get_product("66VCHSJNUP").unwrap();
    assert_eq!(p.name, "Tank Top");
    assert_eq!((p.price_usd.units, p.price_usd.nanos), (19, 990_000_000));
    assert_eq!(p.categories, vec!["kitchen".to_string()]);
}

#[test]
fn get_product_unknown_id() {
    assert_eq!(catalogue().get_product("nope").unwrap_err(), CatalogError::NotFound);
}

#[test]
fn search_ignores_case() {
    let found: Vec<String> =
        catalogue().search_products("GLASS").into_iter().map(|p| p.id).collect();
    assert_eq!(found, vec!["OLJCESPC7Z", "9SIQT8TOJO"]);
}

#[test]
fn search_matches_description() {
    let found: Vec<String> =
        catalogue().search_products("cotton").into_iter().map(|p| p.id).collect();
    assert_eq!(found, vec!["66VCHSJNUP"]);
}

#[test]
fn search_without_match_is_empty() {
    assert!(catalogue().search_products("umbrella").is_empty());
}

#[test]
fn product_matches_on_name_or_description() {
    assert!(product_matches("jar", "bamboo glass jar", ""));
    assert!(product_matches("oz", "bamboo glass jar", "holds 57 oz."));
    assert!(!product_matches("JAR", "bamboo glass jar", ""));
    assert!(product_matches("", "", ""));
}

#[test]
fn contains_finds_runs_of_characters() {
    assert!(contains("hello world", "lo w"));
    assert!(contains("abc", ""));
    assert!(contains("abc", "abc"));
    assert!(!contains("abc", "abcd"));
    assert!(!contains("abc", "ac"));
    assert!(contains("ünïcödé", "cöd"));
}

#[test]
fn ads_by_category() {
    let s = AdService::new();
    let kitchen = s.get_ads_by_category("kitchen");
    assert_eq!(kitchen.len(), 2);
    assert_eq!(kitchen[0].redirect_url, "9SIQT8TOJO");
    assert_eq!(kitchen[1].text, "Mug for sale. Buy two, get third one for free.");
    assert!(s.get_ads_by_category("garden").is_empty());
}

#[test]
fn ads_for_context_keys() {
    let s = AdService::new();
    let ads = s.get_ads(&vec!["hair".to_string(), "garden".to_string(), "clothing".to_string()]);
    let urls: Vec<String> = ads.into_iter().map(|a| a.redirect_url).collect();
    assert_eq!(urls, vec!["2ZYFJ3GM2N", "66VCHSJNUP"]);
}

#[test]
fn ads_fall_back_to_random() {
    let s = AdService::new();
    let all_urls = [
        "2ZYFJ3GM2N", "66VCHSJNUP", "0PUK6V6EV0", "9SIQT8TOJO", "1YMWWN1N4O", "6E92ZMYYFZ",
        "L9ECAV7KIM",
    ];
    for keys in [vec![], vec!["garden".to_string()]] {
        let ads = s.get_ads(&keys);
        assert_eq!(ads.len(), MAX_ADS_TO_SERVE);
        for ad in ads {
            assert!(all_urls.contains(&ad.redirect_url.as_str()));
        }
    }
}

#[test]
fn random_ads_from_empty_service() {
    let s = AdService { ads_map: Vec::new() };
    assert!(s.get_random_ads().is_empty());
    assert!(s.get_ads(&vec!["kitchen".to_string()]).is_empty());
}

#[test]
fn ad_new_keeps_fields() {
    let ad = Ad::new("L9ECAV7KIM", "Loafers");
    assert_eq!((ad.redirect_url.as_str(), ad.text.as_str()), ("L9ECAV7KIM", "Loafers"));
}

#[test]
fn shipping_quote_is_flat() {
    let q = ShippingService::new().get_quote(&address(), &Vec::new());
    assert_eq!((q.currency_code.as_str(), q.units, q.nanos), ("USD", 3, 500_000_000));
}

#[test]
fn shipments_get_fresh_tracking_ids() {
    let s = ShippingService::new();
    let a = s.ship_order(&address(), &Vec::new());
    let b = s.ship_order(&address(), &Vec::new());
    assert_eq!(a.len(), 36);
    assert_ne!(a, b);
}

#[test]
fn payment_gives_transaction_id() {
    let card = CreditCardInfo {
        credit_card_number: "4432801561520454".to_string(),
        credit_card_ccv: 672,
        credit_card_expiration_year: 2039,
        credit_card_expiration_month: 1,
    };
    let id = PaymentService::new().charge(&Money::from_usd(23, 50), &card);
    assert_eq!(id.len(), 36);
}

#[test]
fn email_is_unavailable() {
    let order = OrderResult {
        order_id: "o".to_string(),
        shipping_tracking_id: "t".to_string(),
        shipping_cost: Money::from_usd(3, 50),
        shipping_address: address(),
        items: Vec::new(),
    };
    let r = EmailService::new().send_order_confirmation("a@b.c", &order);
    assert_eq!(r, Err(EmailError::Unavailable));
}

#[test]
fn recommendations_are_distinct_catalogue_ids() {
    let ids: Vec<String> = (0..6).map(|i| format!("P{i}")).collect();
    let r = RecommendationService::new().list_recommendations(ids.clone());
    assert_eq!(r.len(), 3);
    for id in &r {
        assert!(ids.contains(id));
    }
    let mut unique = r.clone();
    unique.sort();
    unique.dedup();
    assert_eq!(unique.len(), 3);
}

#[test]
fn recommendations_from_small_catalogue() {
    let r = RecommendationService::new().list_recommendations(vec!["A".to_string()]);
    assert_eq!(r, vec!["A".to_string()]);
    assert!(RecommendationService::new().list_recommendations(Vec::new()).is_empty());
}

#[test]
fn first_recommendations_takes_a_prefix() {
    let ids: Vec<String> = ["d", "c", "b", "a"].iter().map(|s| s.to_string()).collect();
    assert_eq!(first_recommendations(&ids), vec!["d", "c", "b"]);
    assert_eq!(first_recommendations(&ids[..2].to_vec()), vec!["d", "c"]);
}

#[test]
fn recommendations_vary_between_calls() {
    let ids: Vec<String> = (0..6).map(|i| format!("P{i}")).collect();
    let service = RecommendationService::new();
    let first = service.list_recommendations(ids.clone());
    let varied = (0..50).any(|_| service.list_recommendations(ids.clone()) != first);
    assert!(varied);
}

#[test]
fn random_ads_vary_between_calls() {
    let s = AdService::new();
    let mut seen: Vec<String> = Vec::new();
    for _ in 0..50 {
        for ad in s.get_random_ads() {
            if !seen.contains(&ad.redirect_url) {
                seen.push(ad.redirect_url);
            }
        }
    }
    assert!(seen.len() > 1);
}
