//! Types of the RTPS behavior module.
use vstd::prelude::*;

verus! {

/// The handle by which the RTPS behavior module knows an instance.
#[derive(Clone, Copy, PartialEq, Eq, Debug)]
pub struct InstanceHandle(pub [u8; 16]);

} // verus!
