//! The product endpoints: storing a new product under the next free id of
//! its owner, rewriting and deleting products, listing them, and linking
//! them to their neighbours.
use vstd::prelude::*;
use std::collections::HashMap;
use crate::auth_api::{check_user_registration, check_user_spec, get_auth_user, refusal_reply};
use crate::http::{empty_reply, answer_reply, is_answer, is_text, text_reply, Body, DbOutcome, JsonBody, Reply, Status};
use crate::models::{AuthUser, CroppedProduct, JsonResponse, NewProduct, Product};
use crate::text::{is_blank, is_blank_spec};

verus! {

/// The id that a newly stored product received.
pub struct ProductIdResponse {
    pub new_product_id: i64,
}

/// A request to store (or rewrite) a product, with the owner's credentials.
pub struct RequestCreateNewProduct {
    pub login: String,
    pub password: String,
    pub product_id_on_device: i64,
    pub left_node_id: i64,
    pub right_node_id: i64,
    pub image_url: String,
    pub product_title: String,
    pub product_subtitle: String,
    pub expiration_date: i64,
    pub start_tracking_date: i64,
}

/// A request to link products to their neighbours: product id to the pair
/// (left, right).
pub struct RequestUpdateNeighbors {
    pub data: HashMap<i64, Vec<i64>>,
}

/// A request to delete a product, with the owner's credentials.
pub struct RequestDeleteProduct {
    pub login: String,
    pub password: String,
    pub product_id_on_device: i64,
}

/// `p` is the row that `request` asks to store for the user `user_id`.
pub open spec fn is_product_of(p: NewProduct, request: RequestCreateNewProduct, user_id: i32) -> bool {
    &&& p.user_id == user_id
    &&& p.product_id_on_device == request.product_id_on_device
    &&& p.left_node_id == request.left_node_id
    &&& p.right_node_id == request.right_node_id
    &&& p.image_url == request.image_url
    &&& p.product_title == request.product_title
    &&& p.product_subtitle == request.product_subtitle
    &&& p.expiration_date == request.expiration_date
    &&& p.start_tracking_date == request.start_tracking_date
}

/// Checks the credentials of a product request against the outcome of the
/// login's lookup, and builds the row to store for the accepted user; a
/// refused request gets its refusal reply.
pub fn authorized_product(request: RequestCreateNewProduct, lookup: DbOutcome<Vec<AuthUser>>) -> (r: Result<NewProduct, Reply>)
    ensures
        match check_user_spec(lookup, request.password@) {
            Ok(u) => r matches Ok(p) && is_product_of(p, request, u.user_id),
            Err(e) => r matches Err(reply) && refusal_reply(e, reply),
        },
{
    let user = get_auth_user(check_user_registration(lookup, request.password.as_str()));
    let user = match user {
        Err(err) => {
            return Err(err);
        },
        Ok(u) => u,
    };
    Ok(NewProduct {
        user_id: user.user_id,
        product_id_on_device: request.product_id_on_device,
        left_node_id: request.left_node_id,
        right_node_id: request.right_node_id,
        image_url: request.image_url,
        product_title: request.product_title,
        product_subtitle: request.product_subtitle,
        expiration_date: request.expiration_date,
        start_tracking_date: request.start_tracking_date,
    })
}

/// What the `max_product_id` table says of a user.
pub enum MaxIdLookup {
    /// The highest id handed out so far.
    Known(i64),
    /// No id was handed out yet: the row must be created with 0.
    Unset,
    /// The lookup failed, with this text.
    Failed(String),
}

/// What the lookup of a user's highest product id says: the first row found,
/// none (the row must be created), or the failure's text.
pub open spec fn max_lookup_spec(lookup: DbOutcome<Vec<i64>>, r: MaxIdLookup) -> bool {
    match lookup {
        DbOutcome::Done(v) => if v@.len() == 0 {
            r is Unset
        } else {
            r == MaxIdLookup::Known(v@[0])
        },
        DbOutcome::Failed(e) => r matches MaxIdLookup::Failed(t) && t == e,
        DbOutcome::Blocked => r matches MaxIdLookup::Failed(t) && t@ == "internal error"@,
    }
}

/// Reads the outcome of looking up a user's highest product id.
pub fn get_max_product_id(lookup: DbOutcome<Vec<i64>>) -> (r: MaxIdLookup)
    ensures
        max_lookup_spec(lookup, r),
{
    match lookup {
        DbOutcome::Done(v) => {
            if v.len() == 0 {
                MaxIdLookup::Unset
            } else {
                MaxIdLookup::Known(v[0])
            }
        },
        DbOutcome::Failed(e) => MaxIdLookup::Failed(e),
        DbOutcome::Blocked => MaxIdLookup::Failed("internal error".to_owned()),
    }
}

/// Reads the outcome of writing a user's highest product id. Only a failure
/// of the thread pool counts: an error that the database reports is let
/// through as success.
pub fn push_max_product_id(stored: DbOutcome<usize>) -> (r: Result<(), String>)
    ensures
        match stored {
            DbOutcome::Blocked => r matches Err(t) && t@ == "internal error"@,
            _ => r is Ok,
        },
{
    match stored {
        DbOutcome::Blocked => Err("internal error".to_owned()),
        _ => Ok(()),
    }
}

/// The highest id of a user whose row was just created with 0: 0 if that
/// write went through, its error otherwise.
pub fn initial_max_product_id(pushed: Result<(), String>) -> (r: Result<i64, String>)
    ensures
        match pushed {
            Ok(_) => r == Ok::<i64, String>(0),
            Err(e) => r == Err::<i64, String>(e),
        },
{
    match pushed {
        Ok(_) => Ok(0),
        Err(e) => Err(e),
    }
}

/// The id that the next product of a user gets: one above the highest recorded.
pub open spec fn next_product_id(max: int) -> int {
    max + 1
}

/// The product with the next id of its owner, one above `max_id`; or, when
/// the highest id could not be read, a 500 with the failure's text.
pub open spec fn assign_spec(product: NewProduct, max_id: Result<i64, String>, r: Result<NewProduct, Reply>) -> bool {
    match max_id {
        Ok(v) => r matches Ok(p) && p.product_id_on_device == next_product_id(v as int) && p == (NewProduct {
            product_id_on_device: p.product_id_on_device,
            ..product
        }),
        Err(e) => r matches Err(reply) && reply.status == Status::InternalServerError && is_text(reply.body, e@),
    }
}

/// Gives the product the next id of its owner, one above the highest so
/// far; a failed lookup of that highest id is answered with a 500 and its text.
pub fn assign_product_id(product: NewProduct, max_id: Result<i64, String>) -> (r: Result<NewProduct, Reply>)
    requires
        max_id matches Ok(v) ==> v < i64::MAX,
    ensures
        assign_spec(product, max_id, r),
{
    let mut product = product;
    match max_id {
        Ok(v) => {
            product.product_id_on_device = v + 1;
            Ok(product)
        },
        Err(e) => Err(text_reply(Status::InternalServerError, e)),
    }
}

/// Reads the outcome of storing the new highest id: a failure ends the
/// request with an empty 500.
pub fn max_id_stored(stored: Result<(), String>) -> (r: Option<Reply>)
    ensures
        match stored {
            Ok(_) => r is None,
            Err(_) => r matches Some(reply) && reply.status == Status::InternalServerError && reply.body is Empty,
        },
{
    match stored {
        Ok(_) => None,
        Err(_) => Some(empty_reply(Status::InternalServerError)),
    }
}

/// Whether a product's image address must be looked up: it is blank.
pub fn needs_logo(url: &str) -> (b: bool)
    ensures
        b == is_blank_spec(url@),
{
    is_blank(url)
}

/// The image address that a lookup gives: its first result, or nothing.
pub open spec fn looked_up_logo(lookup: Result<Vec<String>, String>) -> Seq<char> {
    match lookup {
        Ok(v) => if v@.len() > 0 {
            v@[0]@
        } else {
            Seq::empty()
        },
        Err(_) => Seq::empty(),
    }
}

/// Fills a blank image address from the lookup of the product's name; an
/// address that is not blank stays as it is.
pub fn update_logo(url: &mut String, lookup: Result<Vec<String>, String>)
    ensures
        is_blank_spec(old(url)@) ==> final(url)@ == looked_up_logo(lookup),
        is_blank_spec(old(url)@) ==> match lookup {
            Ok(v) => v@.len() > 0 ==> final(url)@ == v@[0]@,
            Err(_) => final(url)@.len() == 0,
        },
        !is_blank_spec(old(url)@) ==> *final(url) == *old(url),
{
    if is_blank(url.as_str()) {
        match lookup {
            Ok(v) => {
                let mut v = v;
                *url = if v.len() > 0 {
                    v.swap_remove(0)
                } else {
                    String::new()
                };
            },
            Err(_) => {
                *url = String::new();
            },
        }
    }
}

/// The reply to a write of a product (rewrite or delete): "success", the
/// database's error text with a 400, or an empty 500.
pub open spec fn write_reply(outcome: DbOutcome<usize>, r: Reply) -> bool {
    match outcome {
        DbOutcome::Done(_) => r.status == Status::Success && is_text(r.body, "success"@),
        DbOutcome::Failed(e) => r.status == Status::BadRequest && is_text(r.body, e@),
        DbOutcome::Blocked => r.status == Status::InternalServerError && r.body is Empty,
    }
}

fn written(outcome: DbOutcome<usize>) -> (r: Reply)
    ensures
        write_reply(outcome, r),
{
    match outcome {
        DbOutcome::Done(_) => text_reply(Status::Success, "success".to_owned()),
        DbOutcome::Failed(v) => text_reply(Status::BadRequest, v),
        DbOutcome::Blocked => empty_reply(Status::InternalServerError),
    }
}

/// The reply to the storing of a new product with id `product_id`.
pub open spec fn add_product_reply_spec(inserted: DbOutcome<usize>, product_id: i64, r: Reply) -> bool {
    match inserted {
        DbOutcome::Done(_) => r.status == Status::Success && (r.body matches Body::Json(JsonBody::ProductId(p)) && p.new_product_id == product_id),
        DbOutcome::Failed(e) => r.status == Status::BadRequest && is_text(r.body, e@),
        DbOutcome::Blocked => r.status == Status::InternalServerError && r.body is Empty,
    }
}

/// Answers the storing of a new product: its id on success, the database's
/// error text with a 400, or an empty 500.
pub fn add_product(inserted: DbOutcome<usize>, product_id: i64) -> (r: Reply)
    ensures
        add_product_reply_spec(inserted, product_id, r),
{
    match inserted {
        DbOutcome::Done(_) => {
            let response = ProductIdResponse { new_product_id: product_id };
            Reply { status: Status::Success, body: Body::Json(JsonBody::ProductId(response)) }
        },
        DbOutcome::Failed(v) => text_reply(Status::BadRequest, v),
        DbOutcome::Blocked => empty_reply(Status::InternalServerError),
    }
}

/// Reads the lookup of the product that a rewrite targets: exactly one row
/// must be found; otherwise the request ends with the reply given.
pub fn product_to_update(found: DbOutcome<Vec<Product>>) -> (r: Option<Reply>)
    ensures
        match found {
            DbOutcome::Done(v) => if v@.len() == 1 {
                r is None
            } else {
                r matches Some(reply) && reply.status == Status::BadRequest && is_text(reply.body, "required entry does not exist"@)
            },
            DbOutcome::Failed(e) => r matches Some(reply) && reply.status == Status::BadRequest && is_text(reply.body, e@),
            DbOutcome::Blocked => r matches Some(reply) && reply.status == Status::InternalServerError && reply.body is Empty,
        },
{
    match found {
        DbOutcome::Done(res) => {
            if res.len() != 1 {
                Some(text_reply(Status::BadRequest, "required entry does not exist".to_owned()))
            } else {
                None
            }
        },
        DbOutcome::Failed(v) => Some(text_reply(Status::BadRequest, v)),
        DbOutcome::Blocked => Some(empty_reply(Status::InternalServerError)),
    }
}

/// Answers the rewrite of a product.
pub fn update_product(updated: DbOutcome<usize>) -> (r: Reply)
    ensures
        write_reply(updated, r),
        updated is Done ==> r.status == Status::Success && (r.body matches Body::Text(t) && t@ == "success"@),
{
    written(updated)
}

/// Answers the deletion of a product.
pub fn delete_product(deleted: DbOutcome<usize>) -> (r: Reply)
    ensures
        write_reply(deleted, r),
        deleted is Done ==> r.status == Status::Success && (r.body matches Body::Text(t) && t@ == "success"@),
{
    written(deleted)
}

/// The products as the client sees them, in the same order.
pub open spec fn cropped(products: Seq<Product>, shown: Seq<CroppedProduct>) -> bool {
    &&& shown.len() == products.len()
    &&& forall|i: int| 0 <= i < products.len() ==> {
        let c = #[trigger] shown[i];
        let p = products[i];
        &&& c.product_id_on_device == p.product_id_on_device
        &&& c.image_url == p.image_url
        &&& c.product_title == p.product_title
        &&& c.product_subtitle == p.product_subtitle
        &&& c.expiration_date == p.expiration_date
        &&& c.start_tracking_date == p.start_tracking_date
    }
}

/// The reply to the listing of a user's products.
pub open spec fn get_products_spec(loaded: DbOutcome<Vec<Product>>, r: Reply) -> bool {
    match loaded {
        DbOutcome::Done(v) => r.status == Status::Success && (r.body matches Body::Json(JsonBody::Products(list)) && cropped(v@, list.answer@)),
        DbOutcome::Failed(e) => r.status == Status::Success && is_answer(r.body, e@),
        DbOutcome::Blocked => r.status == Status::InternalServerError && r.body is Empty,
    }
}

/// Answers the listing of a user's products: the list as `{"answer": [...]}`;
/// a database error is sent as `{"answer": "<text>"}` with status 200.
pub fn get_products(loaded: DbOutcome<Vec<Product>>) -> (r: Reply)
    ensures
        get_products_spec(loaded, r),
{
    match loaded {
        DbOutcome::Done(res) => {
            let ghost products = res@;
            let mut shown: Vec<CroppedProduct> = Vec::new();
            for p in it: res
                invariant
                    it.seq() == products,
                    cropped(products.subrange(0, it.index() as int), shown@),
            {
                let c = p.cutting();
                shown.push(c);
            }
            assert(products.subrange(0, products.len() as int) =~= products);
            Reply { status: Status::Success, body: Body::Json(JsonBody::Products(JsonResponse::new(shown))) }
        },
        DbOutcome::Failed(v) => answer_reply(Status::Success, v),
        DbOutcome::Blocked => empty_reply(Status::InternalServerError),
    }
}

/// The neighbours of one product in a neighbour update: exactly two ids,
/// left then right.
pub fn neighbors_of(value: &Vec<i64>) -> (r: Result<(i64, i64), String>)
    ensures
        value@.len() == 2 ==> r == Ok::<(i64, i64), String>((value@[0], value@[1])),
        value@.len() != 2 ==> (r matches Err(t) && t@ == "each element must have 2 neighbors"@),
{
    if value.len() != 2 {
        return Err("each element must have 2 neighbors".to_owned());
    }
    Ok((value[0], value[1]))
}

/// The links to write for one product in a neighbour update.
pub struct NeighborLinks {
    pub product_id_on_device: i64,
    pub left_node_id: i64,
    pub right_node_id: i64,
}

/// The links that the entry `(id, neighbours)` asks for, when it has two neighbours.
pub open spec fn links_of(entry: (i64, Vec<i64>), l: NeighborLinks) -> bool {
    &&& entry.1@.len() == 2
    &&& l.product_id_on_device == entry.0
    &&& l.left_node_id == entry.1@[0]
    &&& l.right_node_id == entry.1@[1]
}

/// Goes through the entries of a neighbour update in order: the links to
/// write for each entry up to the first one that does not have exactly two
/// neighbours, and that entry's error if there is one. The writes are made
/// in this order and stop at the first database error; the entry's error is
/// the answer once the writes before it went through.
pub fn plan_neighbor_updates(entries: Vec<(i64, Vec<i64>)>) -> (r: (Vec<NeighborLinks>, Option<String>))
    ensures
        r.0@.len() <= entries@.len(),
        forall|i: int| 0 <= i < r.0@.len() ==> links_of(entries@[i], #[trigger] r.0@[i]),
        r.1 is None ==> r.0@.len() == entries@.len(),
        r.1 matches Some(e) ==> (r.0@.len() < entries@.len() && entries@[r.0@.len() as int].1@.len() != 2
            && e@ == "each element must have 2 neighbors"@),
{
    let ghost es = entries@;
    let mut links: Vec<NeighborLinks> = Vec::new();
    for entry in it: entries
        invariant
            it.seq() == es,
            links@.len() == it.index(),
            forall|i: int| 0 <= i < links@.len() ==> links_of(es[i], #[trigger] links@[i]),
    {
        let (id, value) = entry;
        match neighbors_of(&value) {
            Ok((left, right)) => {
                links.push(NeighborLinks { product_id_on_device: id, left_node_id: left, right_node_id: right });
            },
            Err(e) => {
                return (links, Some(e));
            },
        }
    }
    (links, None)
}

/// Answers a neighbour update from the outcome of the job that went through
/// the entries: `{"answer": "success"}`, `{"answer": "<error>"}` with a 400
/// (a refused entry or a database error), or an empty 500.
pub fn update_neighbors(outcome: DbOutcome<()>) -> (r: Reply)
    ensures
        match outcome {
            DbOutcome::Done(_) => r.status == Status::Success && is_answer(r.body, "success"@),
            DbOutcome::Failed(e) => r.status == Status::BadRequest && is_answer(r.body, e@),
            DbOutcome::Blocked => r.status == Status::InternalServerError && r.body is Empty,
        },
{
    match outcome {
        DbOutcome::Done(_) => answer_reply(Status::Success, "success".to_owned()),
        DbOutcome::Failed(e) => answer_reply(Status::BadRequest, e),
        DbOutcome::Blocked => empty_reply(Status::InternalServerError),
    }
}


/// Two products stored one after another for the same user, with nothing
/// else writing that user's highest id in between, are answered with
/// consecutive ids: the table records the first product's id (what the
/// second lookup finds), so the second id is one above the first. A user's
/// first product gets id 1. `max1`/`max2` are the highest ids as the
/// handler holds them: the value found, or 0 once a missing row was created
/// (`initial_max_product_id`).
pub proof fn successive_products_get_successive_ids(
    rows1: Vec<i64>,
    lookup1: MaxIdLookup,
    max1: i64,
    draft1: NewProduct,
    stored1: Result<NewProduct, Reply>,
    inserted1: DbOutcome<usize>,
    reply1: Reply,
    rows2: Vec<i64>,
    lookup2: MaxIdLookup,
    max2: i64,
    draft2: NewProduct,
    stored2: Result<NewProduct, Reply>,
    inserted2: DbOutcome<usize>,
    reply2: Reply,
)
    requires
        max_lookup_spec(DbOutcome::Done(rows1), lookup1),
        lookup1 matches MaxIdLookup::Known(v) ==> max1 == v,
        lookup1 is Unset ==> max1 == 0,
        assign_spec(draft1, Ok(max1), stored1),
        stored1 matches Ok(p) && (rows2@ == seq![p.product_id_on_device] && add_product_reply_spec(
            inserted1,
            p.product_id_on_device,
            reply1,
        )),
        max_lookup_spec(DbOutcome::Done(rows2), lookup2),
        lookup2 matches MaxIdLookup::Known(v) ==> max2 == v,
        assign_spec(draft2, Ok(max2), stored2),
        stored2 matches Ok(q) && add_product_reply_spec(inserted2, q.product_id_on_device, reply2),
        reply1.status == Status::Success,
        reply2.status == Status::Success,
    ensures
        reply1.body matches Body::Json(JsonBody::ProductId(a)) && (reply2.body matches Body::Json(
            JsonBody::ProductId(b),
        ) && b.new_product_id == a.new_product_id + 1 && (rows1@.len() == 0 ==> a.new_product_id
            == 1)),
{
}

/// Client-visible fields of two stored products agree.
pub open spec fn same_visible_fields(a: Product, b: Product) -> bool {
    &&& a.product_id_on_device == b.product_id_on_device
    &&& a.image_url == b.image_url
    &&& a.product_title == b.product_title
    &&& a.product_subtitle == b.product_subtitle
    &&& a.expiration_date == b.expiration_date
    &&& a.start_tracking_date == b.start_tracking_date
}

/// What a listing shows depends only on the client-visible fields of the
/// loaded rows: rows that differ only in their database keys (`value_id`,
/// `user_id`) are answered with the same list.
pub proof fn listing_hides_database_keys(rows1: Vec<Product>, rows2: Vec<Product>, r1: Reply, r2: Reply)
    requires
        rows1@.len() == rows2@.len(),
        forall|i: int| 0 <= i < rows1@.len() ==> same_visible_fields(#[trigger] rows1@[i], rows2@[i]),
        get_products_spec(DbOutcome::Done(rows1), r1),
        get_products_spec(DbOutcome::Done(rows2), r2),
    ensures
        r1.status == r2.status,
        r1.body matches Body::Json(JsonBody::Products(l1)) && (r2.body matches Body::Json(
            JsonBody::Products(l2),
        ) && l1.answer@ == l2.answer@),
{
    if let Body::Json(JsonBody::Products(l1)) = r1.body {
        if let Body::Json(JsonBody::Products(l2)) = r2.body {
            assert forall|i: int| 0 <= i < l1.answer@.len() implies l1.answer@[i] == l2.answer@[i] by {
                assert(same_visible_fields(rows1@[i], rows2@[i]));
            }
            assert(l1.answer@ =~= l2.answer@);
        }
    }
}

/// A blank picture address is filled with the first address that the
/// search found, whatever the others are; an empty list or a failed search
/// leaves it empty.
pub proof fn blank_logo_takes_the_first_found(lookup: Result<Vec<String>, String>)
    ensures
        match lookup {
            Ok(v) => if v@.len() > 0 {
                looked_up_logo(lookup) == v@[0]@
            } else {
                looked_up_logo(lookup).len() == 0
            },
            Err(_) => looked_up_logo(lookup).len() == 0,
        },
{
}

/// A rewrite or deletion that the database carried out is answered 200
/// "success", whatever the number of rows it touched (none, one or several):
/// the reply does not depend on that number.
pub proof fn carried_out_writes_succeed(n: usize, m: usize, r1: Reply, r2: Reply)
    requires
        write_reply(DbOutcome::Done(n), r1),
        write_reply(DbOutcome::Done(m), r2),
    ensures
        r1.status == Status::Success,
        r1.body matches Body::Text(t) && t@ == "success"@,
        r1.status == r2.status,
        r2.body matches Body::Text(t) && t@ == "success"@,
{
}

} // verus!
