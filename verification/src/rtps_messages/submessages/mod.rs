//! The submessages that carry a sample.

pub mod data;
pub mod data_frag;
