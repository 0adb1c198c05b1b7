//! Instants in UTC held as plain numbers, and the time between two of them as
//! `chrono` measures it.

use vstd::prelude::*;

verus! {

/// Seconds from the Unix epoch to the first instant `chrono` can hold (1 January of year -262143).
pub const MIN_SECS: i64 = -8334601315200i64;

/// Seconds from the Unix epoch to the last whole second `chrono` can hold (31 December of year 262142).
pub const MAX_SECS: i64 = 8210266876799i64;

/// Nanoseconds in a second.
pub const NANOS_PER_SEC: i64 = 1_000_000_000i64;

/// An instant in UTC: whole seconds since the Unix epoch and the nanoseconds past
/// that second. As in `chrono`, `nanos` reaches past one second only during a
/// leap second, which can only follow a second numbered 59 within its minute.
#[derive(Clone, Copy)]
pub struct Timestamp {
    secs: i64,
    nanos: u32,
}

/// Whether `secs` and `nanos` name an instant that `chrono::DateTime<Utc>` can hold.
pub open spec fn valid_instant(secs: int, nanos: int) -> bool {
    &&& MIN_SECS <= secs <= MAX_SECS
    &&& 0 <= nanos < 2 * NANOS_PER_SEC
    &&& nanos >= NANOS_PER_SEC ==> secs % 60 == 59
}

impl Timestamp {
    #[verifier::type_invariant]
    spec fn valid(self) -> bool {
        valid_instant(self.secs as int, self.nanos as int)
    }

    /// Whole seconds since the Unix epoch.
    pub closed spec fn spec_secs(self) -> int {
        self.secs as int
    }

    /// Nanoseconds past the whole second.
    pub closed spec fn spec_nanos(self) -> int {
        self.nanos as int
    }

    /// The instant `secs` seconds and `nanos` nanoseconds after the Unix epoch,
    /// if `chrono` can hold it.
    pub fn new(secs: i64, nanos: u32) -> (r: Option<Timestamp>)
        ensures
            r is Some <==> valid_instant(secs as int, nanos as int),
            r matches Some(t) ==> t.spec_secs() == secs && t.spec_nanos() == nanos,
    {
        let sod = second_of_day_of(secs);
        proof {
            lemma_minute_second(secs as int);
        }
        if MIN_SECS <= secs && secs <= MAX_SECS && nanos < 2_000_000_000 && (nanos < 1_000_000_000
            || sod % 60 == 59) {
            Some(Timestamp { secs, nanos })
        } else {
            None
        }
    }

    pub fn secs(&self) -> (r: i64)
        ensures
            r == self.spec_secs(),
            valid_instant(self.spec_secs(), self.spec_nanos()),
    {
        proof {
            use_type_invariant(self);
        }
        self.secs
    }

    pub fn nanos(&self) -> (r: u32)
        ensures
            r == self.spec_nanos(),
    {
        self.nanos
    }
}

/// The second of the day (0 to 86399) of an instant `secs` seconds after the epoch.
pub open spec fn second_of_day(secs: int) -> int {
    secs % 86400
}

/// The extra second `chrono` counts when one end of the span sits in a leap second.
pub open spec fn leap_adjustment(later: Timestamp, earlier: Timestamp) -> int {
    let a = second_of_day(later.spec_secs());
    let b = second_of_day(earlier.spec_secs());
    if a > b && earlier.spec_nanos() >= NANOS_PER_SEC {
        1
    } else if a < b && later.spec_nanos() >= NANOS_PER_SEC {
        -1
    } else {
        0
    }
}

/// The signed span from `earlier` to `later` in nanoseconds, as
/// `later.signed_duration_since(earlier)` measures it.
pub open spec fn span_nanos(later: Timestamp, earlier: Timestamp) -> int {
    (later.spec_secs() - earlier.spec_secs() + leap_adjustment(later, earlier)) * NANOS_PER_SEC
        + later.spec_nanos() - earlier.spec_nanos()
}

/// The whole seconds in a span of `nanos` nanoseconds, rounded toward zero
/// (what `TimeDelta::num_seconds` gives).
pub open spec fn whole_seconds(nanos: int) -> int {
    if nanos >= 0 {
        nanos / (NANOS_PER_SEC as int)
    } else {
        -((-nanos) / (NANOS_PER_SEC as int))
    }
}

proof fn lemma_minute_second(secs: int)
    ensures
        second_of_day(secs) % 60 == secs % 60,
{
    let q = secs / 86400;
    let r = secs % 86400;
    assert(secs == 86400 * q + r && 0 <= r < 86400);
    assert((86400 * q + r) % 60 == r % 60) by (nonlinear_arith)
        requires
            0 <= r < 86400,
    {
        let t = r / 60;
        let u = r % 60;
        assert(r == 60 * t + u);
        assert(86400 * q + r == 60 * (1440 * q + t) + u);
    }
}

fn second_of_day_of(secs: i64) -> (r: i64)
    ensures
        r == second_of_day(secs as int),
{
    if secs >= 0 {
        secs % 86400
    } else {
        let k: i64 = -(secs + 1);
        let m: i64 = k % 86400;
        proof {
            assert(second_of_day(secs as int) == 86399 - m) by (nonlinear_arith)
                requires
                    k == -(secs + 1),
                    k >= 0,
                    m == k % 86400,
            {
                let q = k / 86400;
                assert(k == 86400 * q + m);
                assert(secs == 86400 * (-q - 1) + (86399 - m));
                assert(0 <= 86399 - m < 86400);
            }
        }
        86399 - m
    }
}

/// The time from `a` to `b` is the time from `b` to `a` with its sign turned,
/// to the whole second: `b.signed_duration_since(a).num_seconds()` is minus
/// `a.signed_duration_since(b).num_seconds()`.
pub proof fn lemma_seconds_antisymmetric(a: Timestamp, b: Timestamp)
    ensures
        span_nanos(a, b) == -span_nanos(b, a),
        whole_seconds(span_nanos(a, b)) == -whole_seconds(span_nanos(b, a)),
{
}

/// No time passes from an instant to itself.
pub proof fn lemma_same_instant(t: Timestamp)
    ensures
        whole_seconds(span_nanos(t, t)) == 0,
{
}

/// The whole seconds from `earlier` to `later`, rounded toward zero: what
/// `later.signed_duration_since(earlier).num_seconds()` returns.
pub fn seconds_between(later: &Timestamp, earlier: &Timestamp) -> (r: i64)
    ensures
        r == whole_seconds(span_nanos(*later, *earlier)),
{
    proof {
        use_type_invariant(later);
        use_type_invariant(earlier);
    }
    let a = second_of_day_of(later.secs);
    let b = second_of_day_of(earlier.secs);
    let adjust: i128 = if a > b && earlier.nanos >= 1_000_000_000 {
        1
    } else if a < b && later.nanos >= 1_000_000_000 {
        -1
    } else {
        0
    };
    let span: i128 = (later.secs as i128 - earlier.secs as i128 + adjust) * 1_000_000_000i128
        + later.nanos as i128 - earlier.nanos as i128;
    let whole: i128 = if span >= 0 {
        span / 1_000_000_000
    } else {
        -((-span) / 1_000_000_000)
    };
    whole as i64
}

} // verus!
