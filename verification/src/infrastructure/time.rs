//! Points in time.
use vstd::prelude::*;

verus! {

/// A point in time, as whole seconds and nanoseconds within the second.
#[derive(Clone, Copy, PartialEq, Eq, Debug, Hash, PartialOrd, Ord)]
pub struct Time {
    /// Whole seconds.
    pub sec: i32,
    /// Nanoseconds on top of the seconds.
    pub nanosec: u32,
}

impl Time {
    /// Constructs a new `Time`.
    pub fn new(sec: i32, nanosec: u32) -> (time: Self)
        ensures
            time == (Time { sec, nanosec }),
    {
        Time { sec, nanosec }
    }
}

} // verus!
