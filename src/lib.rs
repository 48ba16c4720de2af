//! Authentication core of a command-line client for a REST API: the credential
//! store, the OAuth 1.0a signer, the OAuth 2.0 authorization-code flow and the
//! policy that picks the `Authorization` header of each request.

pub mod auth;
pub mod flow;
pub mod listener;
pub mod oauth1;
pub mod request;
pub mod store;
