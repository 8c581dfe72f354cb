//! The RTPS protocol's use of cache changes.

pub mod behavior_types;
pub mod cache_change;
pub mod error;
pub mod laws;
pub mod sample_identity;
