//! What an application hands to a write operation.

pub mod instance;
pub mod time;
