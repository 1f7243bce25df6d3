//! The records that the service reads from requests and stores in its tables.
use vstd::prelude::*;

verus! {

/// Credentials that a client sends.
pub struct User {
    pub login: String,
    pub password: String,
}

/// A registered user as stored in the `auth` table.
pub struct AuthUser {
    pub user_id: i32,
    pub login: String,
    pub hash_password: String,
}

/// A user about to be stored in the `auth` table.
pub struct NewAuthUser {
    pub login: String,
    pub hash_password: String,
}

/// A product as stored in the `products` table.
pub struct Product {
    pub value_id: i64,
    pub user_id: i32,
    pub product_id_on_device: i64,
    pub image_url: String,
    pub product_title: String,
    pub product_subtitle: String,
    pub expiration_date: i64,
    pub start_tracking_date: i64,
}

/// A product about to be stored in (or written over a row of) the `products` table.
pub struct NewProduct {
    pub user_id: i32,
    pub product_id_on_device: i64,
    pub left_node_id: i64,
    pub right_node_id: i64,
    pub image_url: String,
    pub product_title: String,
    pub product_subtitle: String,
    pub expiration_date: i64,
    pub start_tracking_date: i64,
}

/// What a client is shown of a product: the stored row without the
/// database's own keys.
pub struct CroppedProduct {
    pub product_id_on_device: i64,
    pub image_url: String,
    pub product_title: String,
    pub product_subtitle: String,
    pub expiration_date: i64,
    pub start_tracking_date: i64,
}

/// The highest product id handed out so far to a user (table `max_product_id`).
pub struct MaxProductId {
    pub user_id: i32,
    pub max_value_id: i64,
}

impl Product {
    /// Drops the database keys of a stored product and keeps what the client sees.
    pub fn cutting(self) -> (c: CroppedProduct)
        ensures
            c.product_id_on_device == self.product_id_on_device,
            c.image_url == self.image_url,
            c.product_title == self.product_title,
            c.product_subtitle == self.product_subtitle,
            c.expiration_date == self.expiration_date,
            c.start_tracking_date == self.start_tracking_date,
    {
        CroppedProduct {
            product_id_on_device: self.product_id_on_device,
            image_url: self.image_url,
            product_title: self.product_title,
            product_subtitle: self.product_subtitle,
            expiration_date: self.expiration_date,
            start_tracking_date: self.start_tracking_date,
        }
    }
}

/// A JSON reply of the form `{"answer": ...}`.
pub struct JsonResponse<T> {
    pub answer: T,
}

impl<T> JsonResponse<T> {
    /// Wraps `v` as the answer.
    pub fn new(v: T) -> (r: JsonResponse<T>)
        ensures
            r.answer == v,
    {
        JsonResponse { answer: v }
    }
}

} // verus!
