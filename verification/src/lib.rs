//! Conversions between the node's domain values and the messages of its
//! gRPC protocol, with the laws that tie the two directions together.

pub mod api;
pub mod codec;
pub mod convert;
pub mod domain;
pub mod error;
pub mod views;
