//! The gRPC surface: what a request asks of storage and what is answered.
pub mod error;
pub mod issuer;
