//! Harrow: a thin HTTP framework, here with its decision logic verified.
//!
//! - `lifecycle`: the backend-agnostic HTTP/1 connection state machine.

pub mod keyed;
pub mod lifecycle;
pub mod connection;
pub mod text;
pub mod response;
pub mod security_headers;
pub mod ws;
pub mod route;
pub mod openapi;
pub mod json_tree;
pub mod openapi_json;
pub mod json;
pub mod o11y;
pub mod timeout;
pub mod meguri;
pub mod bench;
