//! A miniature Bitcoin-wallet-style HTTP API surface: requests are routed by
//! URL substring, request bodies are decoded from JSON, and every operation
//! answers with a JSON document built from fixed or echoed placeholder values.

pub mod json;
pub mod requests;
pub mod responses;
pub mod handlers;
pub mod routing;
pub mod laws;

pub use routing::http_request;
pub use routing::http_request_update;
pub use routing::ProbeResponse;
