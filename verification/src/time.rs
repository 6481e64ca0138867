use vstd::prelude::*;

verus! {

/// Nanoseconds in one second.
pub const NANOS_PER_SEC: u32 = 1_000_000_000;

/// Bound on the magnitude of a Unix timestamp (in seconds) of any instant that the
/// calendar can represent (years -262143 through 262142).
pub const TIMESTAMP_BOUND: i64 = 8_400_000_000_000;

/// An instant, as a Unix timestamp: whole seconds since 1970-01-01T00:00:00Z and
/// the nanoseconds past that second.
#[derive(Clone, Copy, Debug, PartialEq, Eq, Structural)]
pub struct Timestamp {
    pub secs: i64,
    pub nanos: u32,
}

/// A signed span of time in chrono's normalised form: `secs` seconds plus
/// `nanos` nanoseconds, with `nanos` below one second.
#[derive(Clone, Copy, Debug, PartialEq, Eq, Structural)]
pub struct TimeDelta {
    pub secs: i64,
    pub nanos: u32,
}

impl Timestamp {
    /// An instant the calendar can represent, without a leap second.
    pub open spec fn wf(self) -> bool {
        &&& -TIMESTAMP_BOUND <= self.secs <= TIMESTAMP_BOUND
        &&& self.nanos < NANOS_PER_SEC
    }

    /// The instant as nanoseconds since the Unix epoch.
    pub open spec fn total_nanos(self) -> int {
        self.secs * NANOS_PER_SEC + self.nanos
    }

    /// Builds a timestamp from its parts; `None` when the parts are outside the
    /// representable range or name a leap second.
    pub fn new(secs: i64, nanos: u32) -> (r: Option<Timestamp>)
        ensures
            r == (if (Timestamp { secs, nanos }).wf() {
                Some(Timestamp { secs, nanos })
            } else {
                None::<Timestamp>
            }),
    {
        let t = Timestamp { secs, nanos };
        if -TIMESTAMP_BOUND <= secs && secs <= TIMESTAMP_BOUND && nanos < NANOS_PER_SEC {
            Some(t)
        } else {
            None
        }
    }

    /// The span from `rhs` to `self` (`self - rhs`), exactly.
    pub fn signed_duration_since(self, rhs: Timestamp) -> (d: TimeDelta)
        requires
            self.wf(),
            rhs.wf(),
        ensures
            d.wf(),
            d.total_nanos() == self.total_nanos() - rhs.total_nanos(),
    {
        if self.nanos >= rhs.nanos {
            TimeDelta { secs: self.secs - rhs.secs, nanos: self.nanos - rhs.nanos }
        } else {
            TimeDelta {
                secs: self.secs - rhs.secs - 1,
                nanos: self.nanos + (NANOS_PER_SEC - rhs.nanos),
            }
        }
    }

    /// This instant moved by the span `rhs` (`self + rhs`), exactly.
    pub fn add_signed(self, rhs: TimeDelta) -> (r: Timestamp)
        requires
            self.wf(),
            rhs.wf(),
            i64::MIN <= self.secs + rhs.secs,
            self.secs + rhs.secs + 1 <= i64::MAX,
        ensures
            r.nanos < NANOS_PER_SEC,
            r.total_nanos() == self.total_nanos() + rhs.total_nanos(),
            rhs.nanos == 0 ==> r.secs == self.secs + rhs.secs && r.nanos == self.nanos,
    {
        let sum = self.nanos + rhs.nanos;
        if sum >= NANOS_PER_SEC {
            Timestamp { secs: self.secs + rhs.secs + 1, nanos: sum - NANOS_PER_SEC }
        } else {
            Timestamp { secs: self.secs + rhs.secs, nanos: sum }
        }
    }
}

impl TimeDelta {
    /// Normalised: the nanosecond part is below one second.
    pub open spec fn wf(self) -> bool {
        self.nanos < NANOS_PER_SEC
    }

    /// The span in nanoseconds.
    pub open spec fn total_nanos(self) -> int {
        self.secs * NANOS_PER_SEC + self.nanos
    }

    /// The number of whole seconds in the span, rounded toward zero.
    pub open spec fn whole_seconds(self) -> int {
        if self.secs < 0 && self.nanos > 0 {
            self.secs + 1
        } else {
            self.secs as int
        }
    }

    /// A span of whole seconds.
    pub fn seconds(secs: i64) -> (d: TimeDelta)
        ensures
            d.wf(),
            d.secs == secs,
            d.nanos == 0,
            d.whole_seconds() == secs,
    {
        TimeDelta { secs, nanos: 0 }
    }

    /// The number of whole seconds in the span, rounded toward zero.
    pub fn num_seconds(&self) -> (r: i64)
        requires
            self.wf(),
        ensures
            r == self.whole_seconds(),
    {
        if self.secs < 0 && self.nanos > 0 {
            self.secs + 1
        } else {
            self.secs
        }
    }

    /// The number of whole minutes in the span, rounded toward zero.
    pub fn num_minutes(&self) -> (r: i64)
        requires
            self.wf(),
        ensures
            r == trunc_div(self.whole_seconds(), 60),
    {
        let s = self.num_seconds();
        trunc_div_i64(s, 60)
    }

    /// The number of whole hours in the span, rounded toward zero.
    pub fn num_hours(&self) -> (r: i64)
        requires
            self.wf(),
        ensures
            r == trunc_div(self.whole_seconds(), 3600),
    {
        let s = self.num_seconds();
        trunc_div_i64(s, 3600)
    }
}

/// Integer division rounded toward zero, as Rust's `/` on signed integers.
pub open spec fn trunc_div(a: int, b: int) -> int {
    if a >= 0 {
        a / b
    } else {
        -((-a) / b)
    }
}

/// The remainder that goes with `trunc_div`: it has the sign of `a`, as Rust's `%`.
pub open spec fn trunc_rem(a: int, b: int) -> int {
    a - b * trunc_div(a, b)
}

/// Rust's `/` on an `i64` by a positive divisor.
pub fn trunc_div_i64(a: i64, b: i64) -> (r: i64)
    requires
        b > 0,
    ensures
        r == trunc_div(a as int, b as int),
{
    if a >= 0 {
        a / b
    } else {
        let m: u64 = if a == i64::MIN {
            9_223_372_036_854_775_808u64
        } else {
            (-a) as u64
        };
        let q: u64 = m / (b as u64);
        assert(q <= m);
        assert(q as int == (-(a as int)) / (b as int));
        assert(q <= 9_223_372_036_854_775_808u64) by (nonlinear_arith)
            requires q == m / (b as u64), m <= 9_223_372_036_854_775_808u64, b > 0;
        if q == 9_223_372_036_854_775_808u64 {
            i64::MIN
        } else {
            -(q as i64)
        }
    }
}

/// Rust's `%` on an `i64` by a positive divisor.
pub fn trunc_rem_i64(a: i64, b: i64) -> (r: i64)
    requires
        b > 0,
    ensures
        r == trunc_rem(a as int, b as int),
        -b < r < b,
{
    let q = trunc_div_i64(a, b);
    proof {
        lemma_trunc_div_rem(a as int, b as int);
    }
    a - q * b
}

/// `trunc_div` and `trunc_rem` split `a` into a multiple of `b` and a remainder
/// smaller than `b` in magnitude.
pub proof fn lemma_trunc_div_rem(a: int, b: int)
    requires
        b > 0,
    ensures
        a == b * trunc_div(a, b) + trunc_rem(a, b),
        -b < trunc_rem(a, b) < b,
        a >= 0 ==> 0 <= trunc_rem(a, b),
        a < 0 ==> trunc_rem(a, b) <= 0,
        a >= 0 ==> trunc_div(a, b) >= 0,
        a < 0 ==> trunc_div(a, b) <= 0,
{
    if a >= 0 {
        assert(0 <= a % b < b) by (nonlinear_arith) requires b > 0;
        assert(a == b * (a / b) + a % b) by (nonlinear_arith) requires b > 0;
        assert(a / b >= 0) by (nonlinear_arith) requires b > 0, a >= 0;
    } else {
        let n = -a;
        assert(0 <= n % b < b) by (nonlinear_arith) requires b > 0;
        assert(n == b * (n / b) + n % b) by (nonlinear_arith) requires b > 0;
        assert(n / b >= 0) by (nonlinear_arith) requires b > 0, n >= 0;
        assert(b * (-(n / b)) == -(b * (n / b))) by (nonlinear_arith);
        assert(trunc_div(a, b) == -(n / b));
        assert(trunc_rem(a, b) == -(n % b));
    }
}

/// The latest Unix timestamp (in seconds) the calendar reaches, rounded up
/// (the end of year 262142).
pub const LATEST_TIMESTAMP: i64 = 8_300_000_000_000;

/// The current instant, read from the system clock.
///
/// Calls `chrono::Local::now()` and reads its Unix timestamp and sub-second
/// nanoseconds. The contract claims only what chrono's source shows of every
/// outcome: the clock is read through `Utc::now`, which fails unless the time is
/// at or after the Unix epoch and within the calendar's range (which ends with year
/// 262142), and which takes its nanoseconds from `Duration::subsec_nanos`, so they
/// stay below one second. Which instant comes back is not stated: it is the time.
#[verifier::external_body]
pub fn timenow() -> (r: Timestamp)
    ensures
        r.wf(),
        0 <= r.secs <= LATEST_TIMESTAMP,
{
    let now = chrono::Local::now();
    Timestamp { secs: now.timestamp(), nanos: now.timestamp_subsec_nanos() }
}

/// The span from now until `from` (`from - now`): positive while `from` lies ahead.
pub fn delta_now(from: Timestamp) -> (d: TimeDelta)
    requires
        from.wf(),
    ensures
        d.wf(),
        exists|now: Timestamp|
            now.wf() && 0 <= now.secs <= LATEST_TIMESTAMP && d.total_nanos() == from.total_nanos() - now.total_nanos(),
{
    let now = timenow();
    from.signed_duration_since(now)
}

} // verus!
