//! Time as the TEE reports it: seconds and milliseconds.

use vstd::prelude::*;
use crate::text::{dec_digits, push_decimal, push_str};

verus! {

/// A point in time, in seconds and milliseconds.
#[derive(Clone, Copy, Debug, PartialEq, Eq, Structural)]
pub struct Time {
    pub seconds: u32,
    pub millis: u32,
}

/// How a time is written: `(second: S, millisecond: M)`.
pub open spec fn time_text(seconds: u32, millis: u32) -> Seq<char> {
    "(second: "@ + dec_digits(seconds as nat) + ", millisecond: "@ + dec_digits(millis as nat) + ")"@
}

impl Time {
    /// The time zero.
    pub fn new() -> (t: Time)
        ensures
            t.seconds == 0,
            t.millis == 0,
    {
        Time { seconds: 0, millis: 0 }
    }

    /// The time as its `Display` writes it.
    pub fn to_string(&self) -> (s: String)
        ensures
            s@ == time_text(self.seconds, self.millis),
    {
        let mut s = String::new();
        push_str(&mut s, "(second: ");
        push_decimal(&mut s, self.seconds as u64);
        push_str(&mut s, ", millisecond: ");
        push_decimal(&mut s, self.millis as u64);
        push_str(&mut s, ")");
        assert(s@ =~= time_text(self.seconds, self.millis));
        s
    }
}

} // verus!
