//! Responses: status lines and response headers.
pub mod headers;
pub mod status;
