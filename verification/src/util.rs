//! Small shared utilities: millisecond timestamps and a wrapper that keeps
//! secrets out of any diagnostic rendering.

use vstd::prelude::*;

verus! {

/// A point in time, in milliseconds since the Unix epoch.
#[derive(Clone, Copy, PartialEq, Eq, Structural, Debug)]
pub struct MillisecondTimestamp(pub u64);

impl MillisecondTimestamp {
    /// Milliseconds from `now` until this timestamp, or zero when the
    /// timestamp is not in the future.
    pub fn wait_time_or_zero_from(&self, now: MillisecondTimestamp) -> (r: u64)
        ensures
            r == if now.0 >= self.0 { 0u64 } else { (self.0 - now.0) as u64 },
    {
        if now.0 >= self.0 {
            0
        } else {
            self.0 - now.0
        }
    }

    /// Milliseconds from the current wall clock until this timestamp, or
    /// zero when the timestamp has already passed.
    pub fn wait_time_or_zero(&self) -> (r: u64)
        ensures
            r <= self.0,
    {
        let now = Self::now();
        self.wait_time_or_zero_from(now)
    }

    /// Relies on `std::time::SystemTime::now` and
    /// `SystemTime::duration_since` to read the wall clock; nothing can be
    /// promised of the value it returns.  A clock before the epoch reads
    /// as zero rather than failing.
    #[verifier::external_body]
    pub fn now() -> (r: MillisecondTimestamp)
    {
        let millis = std::time::SystemTime::now()
            .duration_since(std::time::UNIX_EPOCH)
            .map(|d| d.as_millis() as u64)
            .unwrap_or(0);
        MillisecondTimestamp(millis)
    }
}

/// Always false; a stand-in predicate for disabled checks.
pub fn pure_false() -> (r: bool)
    ensures
        r == false,
{
    false
}

/// Holds a secret value (an upstream credential, a store address) so that
/// nothing renders it by accident: the wrapper offers no way to display
/// the inner value, only to use it.
pub struct Obscure<T>(pub T);

impl<T> Obscure<T> {
    /// The fixed text shown wherever the secret would otherwise appear.
    pub fn masked_text(&self) -> (r: &'static str)
        ensures
            r@ == ".."@,
    {
        ".."
    }
}

} // verus!
