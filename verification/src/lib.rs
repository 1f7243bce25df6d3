//! Server-side logic of the FreshProduct service: password hashing and
//! checking, authentication decisions, the product bookkeeping rules and the
//! replies that each endpoint sends, all verified with Verus.
pub mod text;
pub mod models;
pub mod http;
pub mod hashing_api;
pub mod auth_api;
pub mod products_api;
pub mod receipts_api;
pub mod logo_api;
