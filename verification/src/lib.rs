//! Relay transaction submission: wire protocol, client rules and transport choice.

pub mod adaptive;
pub mod attempt;
pub mod client_error;
pub mod duration;
pub mod error;
pub mod frame;
pub mod http;
pub mod quic;
pub mod request;
pub mod routes;
pub mod supervisor;
pub mod text;
pub mod transaction;
