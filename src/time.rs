use vstd::arithmetic::div_mod::lemma_fundamental_div_mod_converse;
use vstd::prelude::*;

verus! {

/// The earliest whole second a UTC date-time can hold: January 1 of
/// 262144 BCE.
pub const MIN_TIMESTAMP: i64 = -8_334_601_228_800;

/// The latest whole second a UTC date-time can hold: the last second of
/// December 31 of 262142 CE.
pub const MAX_TIMESTAMP: i64 = 8_210_266_876_799;

/// Whether `seconds` since the epoch name a representable UTC date-time.
pub open spec fn in_date_range(seconds: i64) -> bool {
    MIN_TIMESTAMP <= seconds <= MAX_TIMESTAMP
}

/// Nanoseconds in one second.
pub const NANOS_PER_SEC: u32 = 1_000_000_000;

/// An instant in UTC: whole seconds since the Unix epoch and the
/// nanoseconds past that second.
#[derive(Clone, Copy, Debug, PartialEq, Eq, Structural)]
pub struct Timestamp {
    pub seconds: i64,
    pub nanos: u32,
}

impl Timestamp {
    /// The instant in nanoseconds since the epoch.
    pub open spec fn instant(self) -> int {
        self.seconds * 1_000_000_000 + self.nanos
    }

    /// The same instant with its sub-second part dropped.
    pub open spec fn truncated_spec(self) -> Timestamp {
        Timestamp { seconds: self.seconds, nanos: 0 }
    }

    pub fn from_seconds(seconds: i64) -> (r: Timestamp)
        ensures
            r == (Timestamp { seconds, nanos: 0 }),
    {
        Timestamp { seconds, nanos: 0 }
    }

    /// Drops the sub-second part, keeping the whole second.
    pub fn truncated(&self) -> (r: Timestamp)
        ensures
            r == self.truncated_spec(),
    {
        Timestamp { seconds: self.seconds, nanos: 0 }
    }
}

/// Relies on chrono::Utc::now and its `Display`: the current UTC time as
/// text. Nothing is known of its value.
#[verifier::external_body]
pub(crate) fn now_text() -> (r: String) {
    chrono::Utc::now().to_string()
}

/// The instant `millis` milliseconds after `t`, with `nanos` below one
/// second, or `None` when its seconds do not fit an `i64`.
pub open spec fn plus_millis_spec(t: Timestamp, millis: i64) -> Option<Timestamp> {
    let total = t.instant() + millis * 1_000_000;
    let seconds = total / 1_000_000_000;
    if i64::MIN <= seconds <= i64::MAX {
        Some(Timestamp { seconds: seconds as i64, nanos: (total % 1_000_000_000) as u32 })
    } else {
        None
    }
}

impl Timestamp {
    /// The instant `millis` milliseconds later (earlier when negative),
    /// normalised so that `nanos` stays below one second; `None` when the
    /// seconds leave the range of `i64`.
    pub fn plus_millis(&self, millis: i64) -> (r: Option<Timestamp>)
        ensures
            r == plus_millis_spec(*self, millis),
            r matches Some(t) ==> t.nanos < NANOS_PER_SEC && t.instant() == self.instant() + millis
                * 1_000_000,
    {
        let total: i128 = self.seconds as i128 * 1_000_000_000i128 + self.nanos as i128
            + millis as i128 * 1_000_000i128;
        let (secs, nanos): (i128, u32) = if total >= 0 {
            let t: u128 = total as u128;
            let q: u128 = t / 1_000_000_000u128;
            let m: u128 = t % 1_000_000_000u128;
            assert(q * 1_000_000_000 + m == t) by (nonlinear_arith)
                requires q == t / 1_000_000_000, m == t % 1_000_000_000;
            assert(q <= t) by (nonlinear_arith)
                requires q == t / 1_000_000_000, t >= 0;
            (q as i128, m as u32)
        } else {
            let t: u128 = (0i128 - total) as u128;
            let q: u128 = t / 1_000_000_000u128;
            let m: u128 = t % 1_000_000_000u128;
            assert(q * 1_000_000_000 + m == t) by (nonlinear_arith)
                requires q == t / 1_000_000_000, m == t % 1_000_000_000;
            assert(q <= t) by (nonlinear_arith)
                requires q == t / 1_000_000_000, t >= 0;
            if m == 0 {
                (0i128 - q as i128, 0u32)
            } else {
                (0i128 - q as i128 - 1, (1_000_000_000u128 - m) as u32)
            }
        };
        assert(secs * 1_000_000_000 + nanos == total);
        proof {
            lemma_fundamental_div_mod_converse(total as int, 1_000_000_000, secs as int, nanos as int);
        }
        if secs < i64::MIN as i128 || secs > i64::MAX as i128 {
            None
        } else {
            Some(Timestamp { seconds: secs as i64, nanos })
        }
    }
}

} // verus!
