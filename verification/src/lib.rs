//! Request handling for a single-endpoint contact service.
//!
//! One invocation decodes a JSON body into a contact request, validates it,
//! assigns a fresh identifier, asks the caller to write the record to the
//! store, and maps the outcome to a status code and a JSON body.

pub mod model;
pub mod json;
pub mod decode;
pub mod validate;
pub mod ident;
pub mod store;
pub mod respond;
pub mod stage;
pub mod handler;
