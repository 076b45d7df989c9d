use vstd::prelude::*;

use crate::calendar::epoch_from;
use crate::calendar::epoch_seconds;
use crate::duration::Duration;
use crate::duration::SystemTimeError;
use crate::duration::lemma_duration_view_injective;

verus! {

/// An absolute point in time, held as a non-negative count of seconds since
/// 1970-01-01T00:00:00Z. Pre-epoch instants cannot be represented. Equality,
/// ordering and hashing all go by that count alone.
#[derive(Copy, Clone, PartialEq, Eq, Structural, PartialOrd, Ord, Hash, Debug)]
pub struct SystemTime {
    duration_since_epoch: Duration,
}

impl View for SystemTime {
    type V = nat;

    closed spec fn view(&self) -> nat {
        self.duration_since_epoch@
    }
}

/// The instant 1970-01-01T00:00:00Z itself: zero seconds since the epoch.
pub fn unix_epoch() -> (r: SystemTime)
    ensures
        r@ == 0,
{
    SystemTime { duration_since_epoch: Duration::from_secs(0) }
}

/// What the forward difference of two instants, each given by its seconds
/// since the epoch, must yield: the arithmetic difference when `later` is at
/// or after `earlier`, and the negative-duration failure otherwise.
pub open spec fn forward_difference(later: nat, earlier: nat) -> Result<nat, SystemTimeError> {
    if later >= earlier {
        Ok((later - earlier) as nat)
    } else {
        Err(SystemTimeError::NegativeDuration)
    }
}

impl SystemTime {
    /// The elapsed seconds from `earlier` to `self`: the difference of the
    /// two epoch counts when `self` is at or after `earlier`, and the
    /// negative-duration failure when `earlier` lies strictly later.
    pub fn duration_since(&self, earlier: SystemTime) -> (r: Result<Duration, SystemTimeError>)
        ensures
            self@ >= earlier@ ==> (r matches Ok(d) && d@ == self@ - earlier@),
            self@ < earlier@ ==> r == Err::<Duration, SystemTimeError>(
                SystemTimeError::NegativeDuration,
            ),
    {
        let mine: u64 = self.duration_since_epoch.as_secs();
        let other: u64 = earlier.duration_since_epoch.as_secs();
        if mine >= other {
            Ok(Duration::from_secs(mine - other))
        } else {
            Err(SystemTimeError::NegativeDuration)
        }
    }

    /// A fixed stand-in for the current instant: always exactly 10 seconds
    /// after the epoch, a stable sentinel for deterministic tests. This is
    /// deliberate; no wall clock is read.
    pub fn now() -> (r: SystemTime)
        ensures
            r@ == 10,
    {
        let duration_since_epoch: Duration = Duration::from_secs(10);
        SystemTime { duration_since_epoch }
    }

    /// The instant the civil tuple (year, month, day, hour, min, sec)
    /// denotes in UTC under this crate's calendar rules. The tuple is not
    /// validated; out-of-range components are folded in deterministically.
    pub fn with_ymd_and_hms(year: i32, month: u32, day: u32, hour: u32, min: u32, sec: u32) -> (r:
        SystemTime)
        ensures
            r@ == epoch_seconds(
                year as int,
                month as int,
                day as int,
                hour as int,
                min as int,
                sec as int,
            ),
    {
        let epoch: Duration = epoch_from(year, month, day, hour, min, sec);
        SystemTime { duration_since_epoch: epoch }
    }
}

/// A time is nothing but its seconds since the epoch: equal views mean equal
/// values. With the contract of [`SystemTime::now`] this gives determinism,
/// `now() == now()`; with [`crate::calendar::lemma_epoch_zero`] it identifies
/// `with_ymd_and_hms(1970, 1, 1, 0, 0, 0)` with [`unix_epoch`].
pub proof fn lemma_view_injective(a: SystemTime, b: SystemTime)
    requires
        a@ == b@,
    ensures
        a == b,
{
    lemma_duration_view_injective(a.duration_since_epoch, b.duration_since_epoch);
}

/// Subtracting an instant from itself succeeds and yields zero seconds.
pub proof fn lemma_identity_subtraction(t: SystemTime)
    ensures
        forward_difference(t@, t@) == Ok::<nat, SystemTimeError>(0nat),
{
}

/// Whenever `a` is at or after `b`, the forward difference succeeds with
/// exactly the arithmetic difference of the two epoch counts.
pub proof fn lemma_forward_difference(a: SystemTime, b: SystemTime)
    requires
        b@ <= a@,
    ensures
        forward_difference(a@, b@) == Ok::<nat, SystemTimeError>((a@ - b@) as nat),
{
}

} // verus!
