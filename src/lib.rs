//! Verified core of a product and user CRUD service: error taxonomy and
//! response mapping, parameterized query construction, merge-updates,
//! credential hashing, bearer tokens and the access gate.
pub mod auth;
pub mod credential;
pub mod error;
pub mod ident;
pub mod product;
pub mod query;
pub mod text;
pub mod token;
pub mod txn;
pub mod user;
pub mod utils;
