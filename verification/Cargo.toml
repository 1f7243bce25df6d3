[package]
name = "fresh_product_backend"
version = "0.1.0"
edition = "2021"
publish = false

[dependencies]
argon2 = { version = "0.4", features = ["std"] }
regex = "1"
serde = { version = "1", features = ["derive"] }
actix-web = { version = "4", default-features = false, features = ["macros"] }
diesel = { version = "1.4", features = ["postgres"] }
r2d2 = "0.8"
r2d2-diesel = "1.0"
reqwest = { version = "0.11", default-features = false }
pyo3 = { version = "0.16", features = ["auto-initialize"] }
dotenv = "0.15"
lazy_static = "1.4"
log = "0.4"
