//! The core of a small HTTP/1.x static-file server: a request parser that turns the
//! bytes of one connection into a structured request (method, decoded path, headers and
//! form data), the response heads that the server writes, and the decisions of its
//! file-serving handler. Every function is verified against its contract.
pub mod codec;
pub mod colors;
pub mod fields;
pub mod files;
pub mod form;
pub mod headers;
pub mod method;
pub mod multipart_form;
pub mod request;
pub mod response;
pub mod settings;
pub mod text;
