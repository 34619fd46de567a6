//! Spans of time, as the actors ask the scheduler to rest for.

use vstd::prelude::*;

verus! {

/// The largest number of whole seconds a `Duration` can hold.
pub const MAX_SECONDS: i64 = 9_223_372_036_854_775;

/// A span of time in milliseconds. It may be negative: such a span can be
/// stored and handed on, but nothing can sleep for it.
#[derive(Clone, Copy, Debug, PartialEq, Eq, Structural)]
pub struct Duration {
    pub millis: i64,
}

impl View for Duration {
    type V = int;

    open spec fn view(&self) -> int {
        self.millis as int
    }
}

impl Duration {
    /// A span of the given number of seconds.
    pub fn seconds(seconds: i64) -> (span: Duration)
        requires
            -MAX_SECONDS <= seconds <= MAX_SECONDS,
        ensures
            span@ == seconds * 1000,
    {
        Duration { millis: seconds * 1000 }
    }

    /// A span of the given number of milliseconds.
    pub fn milliseconds(milliseconds: i64) -> (span: Duration)
        ensures
            span@ == milliseconds,
    {
        Duration { millis: milliseconds }
    }

    /// The span in milliseconds.
    pub fn num_milliseconds(&self) -> (milliseconds: i64)
        ensures
            milliseconds == self@,
    {
        self.millis
    }

    /// The span as a length of time that can be slept: its milliseconds, or
    /// nothing where it is negative.
    pub fn to_std(&self) -> (length: Option<u64>)
        ensures
            length == if self@ < 0 {
                None::<u64>
            } else {
                Some(self@ as u64)
            },
    {
        if self.millis < 0 {
            None
        } else {
            Some(self.millis as u64)
        }
    }
}

} // verus!
