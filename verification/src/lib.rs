//! Samples of a data distribution service and the RTPS submessages that carry them.
//!
//! * [`infrastructure`] holds what an application hands to a write operation.
//! * [`transport`] holds the identifiers and the cache change that travels between endpoints.
//! * [`rtps_messages`] holds the submessages and the elements they are made of.
//! * [`rtps`] turns cache changes into submessages and back.

pub mod infrastructure;
pub mod rtps;
pub mod rtps_messages;
pub mod transport;
