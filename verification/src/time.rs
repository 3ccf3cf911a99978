//! Signed durations and instants, both counted in nanoseconds.
//!
//! A `Duration` spans at most `i64::MAX` milliseconds either way; an `Instant`
//! lies between the first moment of year -262143 and the last nanosecond of
//! year 262142 (proleptic Gregorian calendar, UTC).

use vstd::prelude::*;

verus! {

/// Nanoseconds in a millisecond, a second, a minute, an hour and a day.
pub const NANOS_PER_MILLI: i128 = 1_000_000;
pub const NANOS_PER_SEC: i128 = 1_000_000_000;
pub const NANOS_PER_MINUTE: i128 = 60_000_000_000;
pub const NANOS_PER_HOUR: i128 = 3_600_000_000_000;
pub const NANOS_PER_DAY: i128 = 86_400_000_000_000;

/// The largest magnitude of a duration: `i64::MAX` milliseconds, in nanoseconds.
pub const MAX_DURATION_NANOS: i128 = 9_223_372_036_854_775_807_000_000;

/// The earliest instant: -262143-01-01T00:00:00 UTC, in nanoseconds since the epoch.
pub const MIN_INSTANT_NANOS: i128 = -8_334_601_228_800_000_000_000;

/// The latest instant: 262142-12-31T23:59:59.999999999 UTC, in nanoseconds since the epoch.
pub const MAX_INSTANT_NANOS: i128 = 8_210_266_876_799_999_999_999;

/// Division that rounds toward zero, for a positive divisor.
pub open spec fn trunc_div(a: int, b: int) -> int
    recommends
        b > 0,
{
    if a >= 0 {
        a / b
    } else {
        -((-a) / b)
    }
}

/// Division that rounds toward zero, for any non-zero divisor.
pub open spec fn trunc_div_signed(a: int, b: int) -> int
    recommends
        b != 0,
{
    if b > 0 {
        trunc_div(a, b)
    } else {
        -trunc_div(a, -b)
    }
}

/// The remainder that goes with `trunc_div_signed`: it has the sign of `a`.
pub open spec fn trunc_rem_signed(a: int, b: int) -> int {
    a - trunc_div_signed(a, b) * b
}

/// Division rounding toward zero on machine integers small enough that
/// neither the operands nor the quotient can overflow.
fn trunc_div_i128(x: i128, d: i128) -> (q: i128)
    requires
        d != 0,
        -0x1_0000_0000_0000_0000_0000_0000_0000 <= x <= 0x1_0000_0000_0000_0000_0000_0000_0000,
        -0x1_0000_0000_0000_0000_0000_0000_0000 <= d <= 0x1_0000_0000_0000_0000_0000_0000_0000,
    ensures
        q == trunc_div_signed(x as int, d as int),
{
    if d > 0 {
        x / d
    } else {
        let nd = -d;
        let q0 = x / nd;
        -q0
    }
}

/// A duration of `nanos` can be represented.
pub open spec fn duration_in_range(nanos: int) -> bool {
    -MAX_DURATION_NANOS <= nanos <= MAX_DURATION_NANOS
}

/// An instant `nanos` after the epoch can be represented.
pub open spec fn instant_in_range(nanos: int) -> bool {
    MIN_INSTANT_NANOS <= nanos <= MAX_INSTANT_NANOS
}

/// What dividing a duration of `nanos` nanoseconds by `rhs` gives: the whole
/// seconds and the sub-second part are divided apart, each rounding toward
/// zero, and the seconds' remainder is carried into the nanoseconds.
pub open spec fn divided_nanos(nanos: int, rhs: int) -> int {
    let secs = nanos / NANOS_PER_SEC as int;
    let sub = nanos % NANOS_PER_SEC as int;
    let q = trunc_div_signed(secs, rhs);
    let carry = trunc_rem_signed(secs, rhs);
    q * NANOS_PER_SEC + trunc_div_signed(carry * NANOS_PER_SEC, rhs) + trunc_div_signed(sub, rhs)
}

/// The magnitude of `x`.
pub open spec fn abs(x: int) -> int {
    if x < 0 {
        -x
    } else {
        x
    }
}

/// Rounding toward zero never gives a quotient larger in magnitude than the
/// exact one.
pub proof fn lemma_trunc_div_bound(x: int, r: int)
    requires
        r != 0,
    ensures
        abs(trunc_div_signed(x, r)) * abs(r) <= abs(x),
        abs(trunc_div_signed(x, r)) == abs(x) / abs(r),
{
    let ax = abs(x);
    let ar = abs(r);
    assert(abs(trunc_div_signed(x, r)) == ax / ar);
    vstd::arithmetic::div_mod::lemma_fundamental_div_mod(ax, ar);
    vstd::arithmetic::div_mod::lemma_mod_bound(ax, ar);
    assert((ax / ar) * ar <= ax) by (nonlinear_arith)
        requires
            ax == ar * (ax / ar) + ax % ar,
            0 <= ax % ar,
    ;
}

/// Dividing a representable duration by a non-zero integer stays representable.
pub proof fn lemma_divided_in_range(nanos: int, rhs: int)
    requires
        duration_in_range(nanos),
        rhs != 0,
    ensures
        duration_in_range(divided_nanos(nanos, rhs)),
{
    let ns = NANOS_PER_SEC as int;
    let secs = nanos / ns;
    let sub = nanos % ns;
    vstd::arithmetic::div_mod::lemma_fundamental_div_mod(nanos, ns);
    vstd::arithmetic::div_mod::lemma_mod_bound(nanos, ns);
    let q = trunc_div_signed(secs, rhs);
    let carry = trunc_rem_signed(secs, rhs);
    let e = trunc_div_signed(carry * ns, rhs);
    let t = trunc_div_signed(sub, rhs);
    if rhs == 1 {
        lemma_trunc_div_bound(secs, rhs);
        lemma_trunc_div_bound(sub, rhs);
        assert(abs(secs) / 1 == abs(secs)) by (nonlinear_arith);
        assert(abs(sub) / 1 == abs(sub)) by (nonlinear_arith);
        assert(q == secs);
        assert(q * rhs == secs) by (nonlinear_arith)
            requires
                q == secs,
                rhs == 1,
        ;
        assert(carry == 0);
        assert(e == 0);
        assert(t == sub);
        assert(divided_nanos(nanos, rhs) == nanos);
    } else if rhs == -1 {
        lemma_trunc_div_bound(secs, rhs);
        lemma_trunc_div_bound(sub, rhs);
        assert(abs(secs) / 1 == abs(secs)) by (nonlinear_arith);
        assert(abs(sub) / 1 == abs(sub)) by (nonlinear_arith);
        assert(q == -secs);
        assert(q * rhs == secs) by (nonlinear_arith)
            requires
                q == -secs,
                rhs == -1,
        ;
        assert(carry == 0);
        assert(e == 0);
        assert(t == -sub);
        assert(divided_nanos(nanos, rhs) == -nanos);
    } else {
        lemma_trunc_div_bound(secs, rhs);
        lemma_trunc_div_bound(carry * ns, rhs);
        lemma_trunc_div_bound(sub, rhs);
        lemma_trunc_div_bound(secs, rhs);
        let ar = abs(rhs);
        assert(ar >= 2);
        // |carry| < |rhs|
        assert(abs(carry) < ar) by {
            vstd::arithmetic::div_mod::lemma_fundamental_div_mod(abs(secs), ar);
            vstd::arithmetic::div_mod::lemma_mod_bound(abs(secs), ar);
            assert(abs(carry) == abs(secs) % ar) by (nonlinear_arith)
                requires
                    abs(q) == abs(secs) / ar,
                    carry == secs - q * rhs,
                    ar == abs(rhs),
                    abs(secs) == ar * (abs(secs) / ar) + abs(secs) % ar,
                    secs >= 0 ==> q >= 0 && rhs > 0 || q <= 0 && rhs < 0,
                    secs < 0 ==> q <= 0 && rhs > 0 || q >= 0 && rhs < 0,
            ;
        }
        assert(abs(q) * 2 <= abs(secs)) by (nonlinear_arith)
            requires
                abs(q) * ar <= abs(secs),
                ar >= 2,
                abs(q) >= 0,
        ;
        assert(abs(e) <= ns) by (nonlinear_arith)
            requires
                abs(e) * ar <= abs(carry * ns),
                abs(carry) < ar,
                ar >= 2,
                ns > 0,
                abs(e) >= 0,
                abs(carry * ns) == abs(carry) * ns,
        ;
        assert(abs(t) <= ns) by (nonlinear_arith)
            requires
                abs(t) * ar <= abs(sub),
                0 <= sub < ns,
                ar >= 2,
                abs(t) >= 0,
        ;
        assert(abs(secs) * ns <= abs(nanos) + ns) by (nonlinear_arith)
            requires
                nanos == ns * secs + sub,
                0 <= sub < ns,
                ns > 0,
        ;
        assert(abs(q * ns) * 2 <= abs(nanos) + ns) by (nonlinear_arith)
            requires
                abs(q) * 2 <= abs(secs),
                abs(secs) * ns <= abs(nanos) + ns,
                ns > 0,
        ;
    }
}

/// A signed span of time with nanosecond precision.
#[derive(Clone, Copy, Debug, PartialEq, Eq, Structural)]
pub struct Duration {
    nanos: i128,
}

impl View for Duration {
    type V = int;

    closed spec fn view(&self) -> int {
        self.nanos as int
    }
}

impl Duration {
    #[verifier::type_invariant]
    spec fn inv(self) -> bool {
        duration_in_range(self.nanos as int)
    }

    /// The empty duration.
    pub closed spec fn zero_spec() -> Duration {
        Duration { nanos: 0 }
    }

    /// The empty duration.
    pub fn zero() -> (d: Duration)
        ensures
            d@ == 0,
            d == Duration::zero_spec(),
    {
        Duration { nanos: 0 }
    }

    /// A duration of exactly `nanos` nanoseconds, if it is representable.
    pub fn from_nanos(nanos: i128) -> (d: Option<Duration>)
        ensures
            d is Some <==> duration_in_range(nanos as int),
            d matches Some(d) ==> d@ == nanos,
    {
        if -MAX_DURATION_NANOS <= nanos && nanos <= MAX_DURATION_NANOS {
            Some(Duration { nanos })
        } else {
            None
        }
    }

    /// The number of nanoseconds in the duration.
    pub fn as_nanos(&self) -> (n: i128)
        ensures
            n == self@,
            duration_in_range(n as int),
    {
        proof {
            use_type_invariant(self);
        }
        self.nanos
    }

    /// A duration of whole milliseconds.
    pub fn milliseconds(milliseconds: i64) -> (d: Duration)
        requires
            milliseconds >= -i64::MAX,
        ensures
            d@ == milliseconds * NANOS_PER_MILLI,
    {
        Duration { nanos: milliseconds as i128 * NANOS_PER_MILLI }
    }

    /// A duration of whole seconds.
    pub fn seconds(seconds: i64) -> (d: Duration)
        requires
            duration_in_range(seconds * NANOS_PER_SEC),
        ensures
            d@ == seconds * NANOS_PER_SEC,
    {
        Duration { nanos: seconds as i128 * NANOS_PER_SEC }
    }

    /// A duration of whole minutes.
    pub fn minutes(minutes: i64) -> (d: Duration)
        requires
            duration_in_range(minutes * NANOS_PER_MINUTE),
        ensures
            d@ == minutes * NANOS_PER_MINUTE,
    {
        Duration { nanos: minutes as i128 * NANOS_PER_MINUTE }
    }

    /// A duration of whole hours.
    pub fn hours(hours: i64) -> (d: Duration)
        requires
            duration_in_range(hours * NANOS_PER_HOUR),
        ensures
            d@ == hours * NANOS_PER_HOUR,
    {
        Duration { nanos: hours as i128 * NANOS_PER_HOUR }
    }

    /// Whole milliseconds, rounded toward zero.
    pub fn num_milliseconds(&self) -> (n: i64)
        ensures
            n == trunc_div(self@, NANOS_PER_MILLI as int),
    {
        proof {
            use_type_invariant(self);
        }
        (self.nanos / NANOS_PER_MILLI) as i64
    }

    /// Whole seconds, rounded toward zero.
    pub fn num_seconds(&self) -> (n: i64)
        ensures
            n == trunc_div(self@, NANOS_PER_SEC as int),
    {
        proof {
            use_type_invariant(self);
        }
        (self.nanos / NANOS_PER_SEC) as i64
    }

    /// Whole minutes, rounded toward zero.
    pub fn num_minutes(&self) -> (n: i64)
        ensures
            n == trunc_div(self@, NANOS_PER_MINUTE as int),
    {
        proof {
            use_type_invariant(self);
        }
        (self.nanos / NANOS_PER_MINUTE) as i64
    }

    /// Whole hours, rounded toward zero.
    pub fn num_hours(&self) -> (n: i64)
        ensures
            n == trunc_div(self@, NANOS_PER_HOUR as int),
    {
        proof {
            use_type_invariant(self);
        }
        (self.nanos / NANOS_PER_HOUR) as i64
    }

    /// The sum of two durations.
    pub fn add(&self, rhs: &Duration) -> (d: Duration)
        requires
            duration_in_range(self@ + rhs@),
        ensures
            d@ == self@ + rhs@,
    {
        proof {
            use_type_invariant(self);
            use_type_invariant(rhs);
        }
        Duration { nanos: self.nanos + rhs.nanos }
    }

    /// The difference of two durations.
    pub fn sub(&self, rhs: &Duration) -> (d: Duration)
        requires
            duration_in_range(self@ - rhs@),
        ensures
            d@ == self@ - rhs@,
    {
        proof {
            use_type_invariant(self);
            use_type_invariant(rhs);
        }
        Duration { nanos: self.nanos - rhs.nanos }
    }

    /// The duration `rhs` times over.
    pub fn mul(&self, rhs: i32) -> (d: Duration)
        requires
            duration_in_range(self@ * rhs),
        ensures
            d@ == self@ * rhs,
    {
        proof {
            use_type_invariant(self);
            assert(-MAX_DURATION_NANOS * 0x8000_0000 <= self@ * rhs <= MAX_DURATION_NANOS
                * 0x8000_0000) by (nonlinear_arith)
                requires
                    duration_in_range(self@),
                    -0x8000_0000 <= rhs <= 0x7fff_ffff,
            ;
        }
        Duration { nanos: self.nanos * rhs as i128 }
    }

    /// Division by a non-zero integer, as `chrono` divides a `TimeDelta`.
    pub fn div(&self, rhs: i32) -> (d: Duration)
        requires
            rhs != 0,
        ensures
            d@ == divided_nanos(self@, rhs as int),
    {
        proof {
            use_type_invariant(self);
        }
        let n = self.nanos;
        let mut secs = n / NANOS_PER_SEC;
        let mut sub = n % NANOS_PER_SEC;
        if sub < 0 {
            secs = secs - 1;
            sub = sub + NANOS_PER_SEC;
        }
        assert(secs == n as int / NANOS_PER_SEC as int && sub == n as int % NANOS_PER_SEC as int);
        let r = rhs as i128;
        let q = trunc_div_i128(secs, r);
        proof {
            lemma_trunc_div_bound(secs as int, r as int);
            assert(abs(q * r) <= abs(secs as int)) by (nonlinear_arith)
                requires
                    abs(q as int) * abs(r as int) <= abs(secs as int),
            ;
        }
        let carry = secs - q * r;
        assert(carry == trunc_rem_signed(secs as int, r as int));
        proof {
            assert(abs(carry as int) <= 2 * abs(secs as int));
        }
        let extra = trunc_div_i128(carry * NANOS_PER_SEC, r);
        let sub_part = trunc_div_i128(sub, r);
        proof {
            lemma_divided_in_range(n as int, r as int);
            lemma_trunc_div_bound(carry * NANOS_PER_SEC, r as int);
            lemma_trunc_div_bound(sub as int, r as int);
        }
        Duration { nanos: q * NANOS_PER_SEC + extra + sub_part }
    }
}

/// The instant that keeps `nanos`' day and fraction of a second but shows the
/// given hour, minute and second of the day.
pub open spec fn with_time_of_day_nanos(nanos: int, hour: int, minute: int, second: int) -> int {
    let day_start = (nanos / NANOS_PER_DAY as int) * NANOS_PER_DAY;
    let fraction = nanos % NANOS_PER_SEC as int;
    day_start + hour * NANOS_PER_HOUR + minute * NANOS_PER_MINUTE + second * NANOS_PER_SEC
        + fraction
}

/// Setting the clock of an instant to `hour:minute:second` keeps its day
/// and its fraction of a second, and the instant then reads that hour, that
/// minute and that second; moving only the second moves the instant by
/// exactly that many seconds.
pub proof fn lemma_with_time_of_day_reads_back(nanos: int, hour: int, minute: int, second: int)
    requires
        0 <= hour < 24,
        0 <= minute < 60,
        0 <= second < 60,
    ensures
        ({
            let r = with_time_of_day_nanos(nanos, hour, minute, second);
            &&& r / NANOS_PER_DAY as int == nanos / NANOS_PER_DAY as int
            &&& (r % NANOS_PER_DAY as int) / NANOS_PER_HOUR as int == hour
            &&& (r % NANOS_PER_HOUR as int) / NANOS_PER_MINUTE as int == minute
            &&& (r % NANOS_PER_MINUTE as int) / NANOS_PER_SEC as int == second
            &&& r % NANOS_PER_SEC as int == nanos % NANOS_PER_SEC as int
        }),
        with_time_of_day_nanos(nanos, hour, minute, second) - with_time_of_day_nanos(
            nanos,
            hour,
            minute,
            0,
        ) == second * NANOS_PER_SEC,
{
    let r = with_time_of_day_nanos(nanos, hour, minute, second);
    let q = nanos / NANOS_PER_DAY as int;
    let f = nanos % NANOS_PER_SEC as int;
    assert(0 <= f < NANOS_PER_SEC);
    let x = hour * NANOS_PER_HOUR + minute * NANOS_PER_MINUTE + second * NANOS_PER_SEC + f;
    assert(0 <= x < NANOS_PER_DAY);
    assert(r == q * NANOS_PER_DAY + x);
    vstd::arithmetic::div_mod::lemma_fundamental_div_mod_converse(r, NANOS_PER_DAY as int, q, x);
    let y = minute * NANOS_PER_MINUTE + second * NANOS_PER_SEC + f;
    assert(0 <= y < NANOS_PER_HOUR);
    vstd::arithmetic::div_mod::lemma_fundamental_div_mod_converse(x, NANOS_PER_HOUR as int, hour, y);
    let qh = q * 24 + hour;
    assert(r == qh * NANOS_PER_HOUR + y);
    vstd::arithmetic::div_mod::lemma_fundamental_div_mod_converse(r, NANOS_PER_HOUR as int, qh, y);
    let z = second * NANOS_PER_SEC + f;
    assert(0 <= z < NANOS_PER_MINUTE);
    vstd::arithmetic::div_mod::lemma_fundamental_div_mod_converse(y, NANOS_PER_MINUTE as int, minute, z);
    let qm = qh * 60 + minute;
    assert(r == qm * NANOS_PER_MINUTE + z);
    vstd::arithmetic::div_mod::lemma_fundamental_div_mod_converse(r, NANOS_PER_MINUTE as int, qm, z);
    vstd::arithmetic::div_mod::lemma_fundamental_div_mod_converse(z, NANOS_PER_SEC as int, second, f);
    let qs = qm * 60 + second;
    assert(r == qs * NANOS_PER_SEC + f);
    vstd::arithmetic::div_mod::lemma_fundamental_div_mod_converse(r, NANOS_PER_SEC as int, qs, f);
}

/// A moment in UTC with nanosecond precision; also used for the simulated
/// time of day, which is counted on the same scale.
#[derive(Clone, Copy, Debug, PartialEq, Eq, Structural)]
pub struct Instant {
    nanos: i128,
}

impl View for Instant {
    type V = int;

    closed spec fn view(&self) -> int {
        self.nanos as int
    }
}

impl Instant {
    #[verifier::type_invariant]
    spec fn inv(self) -> bool {
        instant_in_range(self.nanos as int)
    }

    /// The instant `nanos` nanoseconds after 1970-01-01T00:00:00 UTC, if it is
    /// representable.
    pub fn from_nanos(nanos: i128) -> (t: Option<Instant>)
        ensures
            t is Some <==> instant_in_range(nanos as int),
            t matches Some(t) ==> t@ == nanos,
    {
        if MIN_INSTANT_NANOS <= nanos && nanos <= MAX_INSTANT_NANOS {
            Some(Instant { nanos })
        } else {
            None
        }
    }

    /// Nanoseconds since 1970-01-01T00:00:00 UTC.
    pub fn as_nanos(&self) -> (n: i128)
        ensures
            n == self@,
            instant_in_range(n as int),
    {
        proof {
            use_type_invariant(self);
        }
        self.nanos
    }

    /// The instant `d` later (earlier, for a negative `d`).
    pub fn add(&self, d: &Duration) -> (t: Instant)
        requires
            instant_in_range(self@ + d@),
        ensures
            t@ == self@ + d@,
    {
        let dn = d.as_nanos();
        Instant { nanos: self.nanos + dn }
    }

    /// The signed time from `earlier` to `self`.
    pub fn since(&self, earlier: &Instant) -> (d: Duration)
        ensures
            d@ == self@ - earlier@,
    {
        proof {
            use_type_invariant(self);
            use_type_invariant(earlier);
        }
        let n = self.nanos - earlier.nanos;
        Duration::from_nanos(n).unwrap()
    }

    /// The same day and fraction of a second at another hour, minute and
    /// second of the day.
    pub fn with_time_of_day(&self, hour: u32, minute: u32, second: u32) -> (t: Instant)
        requires
            hour < 24,
            minute < 60,
            second < 60,
        ensures
            t@ == with_time_of_day_nanos(self@, hour as int, minute as int, second as int),
    {
        proof {
            use_type_invariant(self);
        }
        let n = self.nanos;
        let mut day = n / NANOS_PER_DAY;
        let mut within = n % NANOS_PER_DAY;
        if within < 0 {
            day = day - 1;
            within = within + NANOS_PER_DAY;
        }
        assert(day == n as int / NANOS_PER_DAY as int && within == n as int % NANOS_PER_DAY as int);
        let fraction = within % NANOS_PER_SEC;
        proof {
            assert(within as int % NANOS_PER_SEC as int == n as int % NANOS_PER_SEC as int) by {
                vstd::arithmetic::div_mod::lemma_mod_mod(n as int, NANOS_PER_SEC as int, 86400);
            }
        }
        let result = day * NANOS_PER_DAY + hour as i128 * NANOS_PER_HOUR + minute as i128
            * NANOS_PER_MINUTE + second as i128 * NANOS_PER_SEC + fraction;
        Instant { nanos: result }
    }
}

} // verus!
