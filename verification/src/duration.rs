use vstd::prelude::*;

verus! {

/// A non-negative count of whole seconds, the unit in which all instants of
/// this crate are measured.
#[derive(Copy, Clone, PartialEq, Eq, Structural, PartialOrd, Ord, Hash, Debug)]
pub struct Duration {
    secs: u64,
}

impl View for Duration {
    type V = nat;

    closed spec fn view(&self) -> nat {
        self.secs as nat
    }
}

impl Duration {
    /// Packages a whole number of seconds as a duration.
    pub fn from_secs(secs: u64) -> (r: Duration)
        ensures
            r@ == secs,
    {
        Duration { secs }
    }

    /// The number of whole seconds this duration spans.
    pub fn as_secs(&self) -> (r: u64)
        ensures
            r == self@,
    {
        self.secs
    }
}

/// A duration is nothing but its count of seconds: equal views mean equal values.
pub proof fn lemma_duration_view_injective(a: Duration, b: Duration)
    requires
        a@ == b@,
    ensures
        a == b,
{
}

/// The failure `SystemTime::duration_since` reports when the subtrahend lies
/// strictly later than the minuend, so that no non-negative difference exists.
#[derive(Copy, Clone, PartialEq, Eq, Structural, Hash, Debug)]
pub enum SystemTimeError {
    NegativeDuration,
}

} // verus!
