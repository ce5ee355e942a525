//! Who is asking: the identities that a request can show.

pub mod api_key;
pub mod auth;
