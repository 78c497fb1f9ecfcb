//! Builds the authentication and tracing headers that a client attaches to
//! each request it sends to a gateway.

pub mod client;
pub mod clock;
pub mod decimal;
pub mod headers;

pub use client::CaasRustSdk;
pub use headers::HeaderSet;
