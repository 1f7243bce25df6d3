use fresh_product_backend::http::{Body, JsonBody, Status};
use fresh_product_backend::receipts_api::get_receipt_info;

#[test]
fn script_not_loaded() {
    let r = get_receipt_info(None);
    assert_eq!(r.status, Status::Success);
    assert!(matches!(r.body, Body::Text(ref t) if t == "Python error"));
}

#[test]
fn nothing_found() {
    let r = get_receipt_info(Some(vec![]));
    assert_eq!(r.status, Status::NotFound);
    assert!(matches!(r.body, Body::Text(ref t) if t == "No found"));
}

#[test]
fn lines_found() {
    let r = get_receipt_info(Some(vec!["milk".to_string(), "bread".to_string()]));
    assert_eq!(r.status, Status::Success);
    match r.body {
        Body::Json(JsonBody::Answers(a)) => assert_eq!(a.answer, vec!["milk".to_string(), "bread".to_string()]),
        _ => panic!("expected a JSON list"),
    }
}
