//! The receipt endpoint: what is answered once the receipt lookup script ran.
use vstd::prelude::*;
use crate::http::{is_text, text_reply, Body, JsonBody, Reply, Status};
use crate::models::JsonResponse;

verus! {

/// The fiscal data printed on a receipt, as the client sends it.
pub struct Receipt {
    pub fn_param: String,
    pub fd: String,
    pub fp: String,
    pub total_sum: String,
    pub date: String,
    pub time: String,
    pub receipt_type: String,
}

/// Answers a receipt lookup from what the lookup script gave: `None` when
/// the script could not be loaded ("Python error"), otherwise the lines it
/// found; none found is a 404 "No found", some are sent as `{"answer": [...]}`.
pub fn get_receipt_info(found: Option<Vec<String>>) -> (r: Reply)
    ensures
        match found {
            None => r.status == Status::Success && is_text(r.body, "Python error"@),
            Some(v) => if v@.len() == 0 {
                r.status == Status::NotFound && is_text(r.body, "No found"@)
            } else {
                r.status == Status::Success && (r.body matches Body::Json(JsonBody::Answers(a)) && a.answer == v)
            },
        },
{
    match found {
        Some(res) => {
            if res.len() == 0 {
                text_reply(Status::NotFound, "No found".to_owned())
            } else {
                Reply { status: Status::Success, body: Body::Json(JsonBody::Answers(JsonResponse::new(res))) }
            }
        },
        None => text_reply(Status::Success, "Python error".to_owned()),
    }
}

} // verus!
