# FreshProduct backend

The server side of the FreshProduct app: users register with a login and a
password, then store, list, rewrite and delete the products they track; a
product without a picture gets one from an image search.

- `src/` is the library, verified with Verus: password hashing and checking
  (Argon2, through the `argon2` crate), the authentication decisions, the
  numbering of products, the picture-address extraction (through `regex`),
  and the reply that every endpoint sends for each outcome of its database
  work.
- `app/` is the HTTP server (actix-web), the PostgreSQL access (diesel, r2d2),
  the image-search fetch (reqwest) and the receipt lookup script (pyo3); it
  hands the library plain values and sends back what the library decides.
- `tests/` exercises the library with the real outside crates.
