//! RTPS submessages and their elements.

pub mod submessage_elements;
pub mod submessages;
pub mod types;
