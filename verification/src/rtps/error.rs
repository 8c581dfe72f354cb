//! What can go wrong when a submessage is read.
use vstd::prelude::*;

verus! {

/// Why a submessage could not be read.
#[derive(Clone, Copy, PartialEq, Eq, Debug, Structural)]
pub enum RtpsError {
    /// The submessage holds octets that stand for nothing.
    InvalidData,
}

} // verus!
