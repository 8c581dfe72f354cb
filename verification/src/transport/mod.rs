//! The vocabulary shared with the transport.

pub mod types;
