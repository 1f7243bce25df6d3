use fresh_product_backend::http::{Body, JsonBody, Status};
use fresh_product_backend::logo_api::{find_logo, get_logo_url, logo_urls, normalize_logo_urls};

const PAGE: &str = r#"<div data-bem='{"serp-item":{"preview":[{"url":"//avatars.example.net/i?id=1","w":10}]}}'></div><div data-bem='{"serp-item":{"preview":[{"url":"http://img.example.com/milk.jpg","w":20}]}}'></div>"#;

#[test]
fn addresses_are_made_absolute() {
    let r = normalize_logo_urls(vec![
        Some("//a/b.png".to_string()),
        None,
        Some("http://c/d.png".to_string()),
        Some("https://e/f.png".to_string()),
        Some("img.example/x".to_string()),
    ]);
    assert_eq!(r, vec!["https:////a/b.png", "http://c/d.png", "https://e/f.png", "https://img.example/x"]);
}

#[test]
fn previews_are_found_in_order() {
    let urls = logo_urls(PAGE).unwrap();
    assert_eq!(urls, vec!["https:////avatars.example.net/i?id=1", "http://img.example.com/milk.jpg"]);
    assert_eq!(logo_urls("no previews here").unwrap(), Vec::<String>::new());
}

#[test]
fn every_handed_out_address_starts_with_http() {
    for u in logo_urls(PAGE).unwrap() {
        assert!(u.starts_with("http"));
    }
}

#[test]
fn search_replies() {
    let r = find_logo(Ok(PAGE.to_string()));
    assert_eq!(r.status, Status::Success);
    match r.body {
        Body::Json(JsonBody::Urls(v)) => assert_eq!(v.len(), 2),
        _ => panic!("expected a JSON list"),
    }
    let r = find_logo(Ok(format!("{} Нам очень жаль, но запросы...", PAGE)));
    assert_eq!(r.status, Status::Success);
    assert!(matches!(r.body, Body::Text(ref t) if t == "the external server is overloaded"));
    let r = find_logo(Err("timed out".to_string()));
    assert_eq!(r.status, Status::InternalServerError);
    assert!(matches!(r.body, Body::Text(ref t) if t == "timed out"));
}

#[test]
fn lookups_for_products() {
    assert_eq!(get_logo_url(Ok(PAGE.to_string())).unwrap().len(), 2);
    assert_eq!(get_logo_url(Err("offline".to_string())).err().unwrap(), "offline");
}
