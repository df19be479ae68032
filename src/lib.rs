//! Failure taxonomy, HTTP status mapping and OAuth2 provider decisions for a
//! build service gateway.
pub mod error;
pub mod json;
pub mod okta;
pub mod status;
