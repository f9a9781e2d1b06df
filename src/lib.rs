//! Transport-agnostic remote procedure calls for the secrets service, with a
//! JSON-over-HTTP transport whose framing is verified.

pub mod error;
pub mod json;
pub mod http;
pub mod envelope;
pub mod transport;
pub mod service;
pub mod server;
pub mod client;
pub mod config;

pub use client::Client;
pub use envelope::{Request, Response};
pub use error::{Error, ErrorCode};
pub use server::Service;
pub use transport::JsonTransport;
