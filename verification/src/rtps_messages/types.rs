//! Plain types of the RTPS message model.
use vstd::prelude::*;

verus! {

/// Number that tells the parameters of an inline QoS list apart.
pub type ParameterId = i16;

} // verus!
