//! What the handlers see of the outside world (the outcome of a database
//! job) and what they answer (a status and a body).
use vstd::prelude::*;
use crate::models::{CroppedProduct, JsonResponse};
use crate::products_api::ProductIdResponse;

verus! {

/// The outcome of a database job run on the blocking thread pool: the job's
/// value, the text of the database error it reported, or the pool's own failure.
pub enum DbOutcome<T> {
    Done(T),
    Failed(String),
    Blocked,
}

/// The HTTP status of a reply.
#[derive(PartialEq, Eq, Structural, Clone, Copy, Debug)]
pub enum Status {
    Success,
    BadRequest,
    NotFound,
    InternalServerError,
}

/// The JSON documents that the service sends.
pub enum JsonBody {
    /// `{"answer": "<text>"}`
    Answer(JsonResponse<String>),
    /// `{"answer": [...]}` with a list of texts
    Answers(JsonResponse<Vec<String>>),
    /// `{"answer": [...]}` with a user's products
    Products(JsonResponse<Vec<CroppedProduct>>),
    /// `{"new_product_id": n}`
    ProductId(ProductIdResponse),
    /// a bare list of image addresses
    Urls(Vec<String>),
}

/// The body of a reply.
pub enum Body {
    Empty,
    Text(String),
    Json(JsonBody),
}

/// A reply: status and body.
pub struct Reply {
    pub status: Status,
    pub body: Body,
}

/// The body is the plain text `t`.
pub open spec fn is_text(b: Body, t: Seq<char>) -> bool {
    b matches Body::Text(s) && s@ == t
}

/// The body is `{"answer": "<t>"}`.
pub open spec fn is_answer(b: Body, t: Seq<char>) -> bool {
    b matches Body::Json(JsonBody::Answer(a)) && a.answer@ == t
}

/// A reply with the given status and no body.
pub fn empty_reply(status: Status) -> (r: Reply)
    ensures
        r.status == status,
        r.body is Empty,
{
    Reply { status, body: Body::Empty }
}

/// A reply with the given status and the text `t`.
pub fn text_reply(status: Status, t: String) -> (r: Reply)
    ensures
        r.status == status,
        r.body matches Body::Text(s) && s == t,
{
    Reply { status, body: Body::Text(t) }
}

/// A reply with the given status and `{"answer": "<t>"}`.
pub fn answer_reply(status: Status, t: String) -> (r: Reply)
    ensures
        r.status == status,
        r.body matches Body::Json(JsonBody::Answer(a)) && a.answer == t,
{
    Reply { status, body: Body::Json(JsonBody::Answer(JsonResponse::new(t))) }
}

} // verus!
