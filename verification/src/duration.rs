use vstd::prelude::*;

verus! {

/// Number of nanoseconds in one second.
pub const NANOS_PER_SEC: u32 = 1_000_000_000;

/// A signed span of elapsed time with nanosecond precision, independent of
/// any calendar or time zone.
///
/// The span is held as a count of whole seconds plus a non-negative
/// sub-second nanosecond part, so its length in nanoseconds is
/// `secs * 1_000_000_000 + nanos`. A well-formed value keeps the sub-second
/// part below one second, which makes the representation of every span
/// unique; negative spans put the remainder on top of a more negative
/// second count (half a second before the origin is `secs == -1`,
/// `nanos == 500_000_000`).
#[derive(Debug, Clone, Copy, PartialEq, Eq, PartialOrd, Ord, Structural)]
pub struct Duration {
    /// Whole seconds, rounded toward negative infinity.
    pub secs: i64,
    /// Nanoseconds past the whole second; below one second when well-formed.
    pub nanos: u32,
}

impl Duration {
    /// The length of the span in nanoseconds, as a mathematical integer.
    pub open spec fn total_nanos(self) -> int {
        self.secs * (NANOS_PER_SEC as int) + self.nanos
    }

    /// Well-formedness: the sub-second part is less than one full second.
    pub open spec fn wf(self) -> bool {
        self.nanos < NANOS_PER_SEC
    }

    /// Builds the span of `secs` whole seconds plus `nanos` nanoseconds;
    /// rejects a sub-second part of one full second or more.
    pub fn new(secs: i64, nanos: u32) -> (r: Option<Duration>)
        ensures
            nanos < NANOS_PER_SEC ==> (r matches Some(d) && d.secs == secs && d.nanos == nanos
                && d.wf()),
            nanos >= NANOS_PER_SEC ==> r is None,
    {
        if nanos < NANOS_PER_SEC {
            Some(Duration { secs, nanos })
        } else {
            None
        }
    }

    /// The span of exactly `secs` whole seconds.
    pub fn seconds(secs: i64) -> (r: Duration)
        ensures
            r.wf(),
            r.total_nanos() == secs * (NANOS_PER_SEC as int),
    {
        Duration { secs, nanos: 0 }
    }

    /// The span of exactly `n` nanoseconds.
    ///
    /// Total: every signed 64-bit nanosecond count names a representable,
    /// well-formed span.
    pub fn nanoseconds(n: i64) -> (r: Duration)
        ensures
            r.wf(),
            r.total_nanos() == n,
    {
        if n >= 0 {
            let u: u64 = n as u64;
            let q: u64 = u / 1_000_000_000;
            let rem: u64 = u % 1_000_000_000;
            proof {
                vstd::arithmetic::div_mod::lemma_fundamental_div_mod(u as int, 1_000_000_000);
            }
            Duration { secs: q as i64, nanos: rem as u32 }
        } else {
            let m: u64 = (-(n as i128)) as u64;
            let q: u64 = m / 1_000_000_000;
            let rem: u64 = m % 1_000_000_000;
            proof {
                vstd::arithmetic::div_mod::lemma_fundamental_div_mod(m as int, 1_000_000_000);
            }
            if rem == 0 {
                Duration { secs: -(q as i64), nanos: 0 }
            } else {
                Duration { secs: -(q as i64) - 1, nanos: (1_000_000_000 - rem) as u32 }
            }
        }
    }

    /// The span's total length as a signed 64-bit count of nanoseconds, when
    /// that count fits; `None` exactly when its magnitude is too large for
    /// the 64-bit range.
    pub fn num_nanoseconds(&self) -> (r: Option<i64>)
        ensures
            (i64::MIN <= self.total_nanos() <= i64::MAX) <==> (r is Some),
            r matches Some(n) ==> n == self.total_nanos(),
    {
        proof {
            let s: int = self.secs as int;
            let k: int = NANOS_PER_SEC as int;
            assert((i64::MIN as int) * k <= s * k <= (i64::MAX as int) * k) by (nonlinear_arith)
                requires
                    i64::MIN as int <= s <= i64::MAX as int,
                    k == 1_000_000_000,
            ;
        }
        let total: i128 = (self.secs as i128) * (NANOS_PER_SEC as i128) + (self.nanos as i128);
        if i64::MIN as i128 <= total && total <= i64::MAX as i128 {
            Some(total as i64)
        } else {
            None
        }
    }
}

} // verus!
