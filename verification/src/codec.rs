use vstd::prelude::*;

use crate::duration::Duration;

verus! {

/// A proxy around [`Duration`] that carries the column codec: the persisted
/// form of a duration is one signed 64-bit integer column holding its total
/// nanosecond count.
#[derive(Debug, Clone, Copy, PartialEq, Eq, PartialOrd, Ord, Structural)]
pub struct ChronoDurationProxy(pub Duration);

/// Failure on the write path: the duration's nanosecond count does not fit
/// in a signed 64-bit integer, so no column value can be produced for it.
///
/// The error carries the offending duration, so the caller can name the
/// value that was rejected. Retrying cannot change the outcome: the failure
/// is determined by the input alone.
#[derive(Debug, Clone, Copy, PartialEq, Eq, Structural)]
pub struct OverflowError {
    /// The duration whose nanosecond count overflows the column type.
    pub duration: Duration,
}

impl From<Duration> for ChronoDurationProxy {
    fn from(duration: Duration) -> (r: ChronoDurationProxy) {
        ChronoDurationProxy(duration)
    }
}

impl vstd::std_specs::convert::FromSpecImpl<Duration> for ChronoDurationProxy {
    open spec fn obeys_from_spec() -> bool {
        true
    }

    open spec fn from_spec(duration: Duration) -> ChronoDurationProxy {
        ChronoDurationProxy(duration)
    }
}

impl ChronoDurationProxy {
    /// The wrapped duration.
    pub fn as_ref(&self) -> (r: &Duration)
        ensures
            *r == self.0,
    {
        &self.0
    }

    /// Write path: the value to store in the signed 64-bit integer column.
    ///
    /// Succeeds exactly when the wrapped duration's nanosecond count fits in
    /// the signed 64-bit range, and then returns that count. Otherwise it
    /// reports the overflow, naming the offending duration, and produces no
    /// column value at all, so nothing is ever written for an overflowing
    /// duration.
    pub fn encode(&self) -> (r: Result<i64, OverflowError>)
        ensures
            (i64::MIN <= self.0.total_nanos() <= i64::MAX) <==> (r is Ok),
            r matches Ok(n) ==> n == self.0.total_nanos(),
            r matches Err(e) ==> e.duration == self.0,
    {
        match self.0.num_nanoseconds() {
            Some(n) => Ok(n),
            None => Err(OverflowError { duration: self.0 }),
        }
    }

    /// Read path: turns the inner integer codec's outcome into a duration.
    ///
    /// Every stored count names a representable duration, so an inner success
    /// always maps to a well-formed duration of exactly that count; an inner
    /// failure is passed through unchanged, with no failure mode added.
    pub fn decode<E>(raw: Result<i64, E>) -> (r: Result<ChronoDurationProxy, E>)
        ensures
            raw matches Ok(n) ==> (r matches Ok(p) && p.0.wf() && p.0.total_nanos() == n),
            raw matches Err(e) ==> (r matches Err(e2) && e2 == e),
    {
        match raw {
            Ok(n) => Ok(ChronoDurationProxy(Duration::nanoseconds(n))),
            Err(e) => Err(e),
        }
    }
}

/// Round trip: decoding what `encode` stored gives back the original
/// duration. `encode` succeeds on a well-formed duration whose nanosecond
/// count fits in the signed 64-bit range and stores exactly that count, and
/// `decode` builds a well-formed duration with the stored count; this lemma
/// closes the loop by stating that a well-formed duration is determined by
/// its nanosecond count.
pub proof fn lemma_encode_decode_round_trip(d: Duration, decoded: Duration)
    requires
        d.wf(),
        i64::MIN <= d.total_nanos() <= i64::MAX,
        decoded.wf(),
        decoded.total_nanos() == d.total_nanos(),
    ensures
        decoded == d,
{
    assert(decoded.secs == d.secs);
    assert(decoded.nanos == d.nanos);
}

} // verus!
