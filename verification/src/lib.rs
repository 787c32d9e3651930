//! A small user-directory service core: an in-memory model of the relational
//! `users` store, the request handlers over it, the bearer-token validation
//! flow against a JSON Web Key Set, and the error-to-HTTP-response mapping.

pub mod auth;
pub mod errors;
pub mod handlers;
pub mod models;
pub mod store;
