//! Media time: durations, stream time bases and the player's master-clock
//! arithmetic.
//!
//! Everything here is exact integer arithmetic on nanoseconds. A result that
//! falls between two nanoseconds is rounded to the nearest one, a tie to the
//! even one.

use vstd::prelude::*;

verus! {

/// Nanoseconds in one second.
pub const NANOS_PER_SEC: u128 = 1_000_000_000;

/// The longest representable span, in nanoseconds.
pub const MAX_NANOS: u128 = 18_446_744_073_709_551_615_999_999_999;

/// `n / d` rounded to the nearest integer, a tie to the even one.
pub open spec fn nearest(n: int, d: int) -> int {
    let q = n / d;
    let r = n % d;
    if 2 * r < d || (2 * r == d && q % 2 == 0) {
        q
    } else {
        q + 1
    }
}

/// `n / d` rounded to the nearest integer, a tie away from zero (for
/// non-negative `n`).
pub open spec fn nearest_away(n: int, d: int) -> int {
    if 2 * (n % d) < d {
        n / d
    } else {
        n / d + 1
    }
}

/// The absolute value of `x`.
pub open spec fn magnitude(x: int) -> int {
    if x < 0 {
        -x
    } else {
        x
    }
}

/// `a - b`, or zero where that is negative.
pub open spec fn monus(a: int, b: int) -> int {
    if a >= b {
        a - b
    } else {
        0
    }
}

/// A span of time: whole seconds and the nanoseconds beyond them.
#[derive(Clone, Copy, Debug, PartialEq, Eq, Structural)]
pub struct MediaTime {
    pub secs: u64,
    pub sub_nanos: u32,
}

impl MediaTime {
    /// The span's length in nanoseconds.
    pub open spec fn nanos(self) -> int {
        self.secs * 1_000_000_000 + self.sub_nanos
    }

    /// Whether less than a second stands beyond the whole seconds. Two
    /// canonical spans of the same length are the same value.
    pub open spec fn canonical(self) -> bool {
        self.sub_nanos < 1_000_000_000
    }

    /// The span of no length.
    pub fn zero() -> (t: MediaTime)
        ensures
            t == (MediaTime { secs: 0, sub_nanos: 0 }),
            t.nanos() == 0,
            t.canonical(),
    {
        MediaTime { secs: 0, sub_nanos: 0 }
    }

    /// The span of `n` nanoseconds.
    pub fn from_nanos(n: u128) -> (t: MediaTime)
        requires
            n <= MAX_NANOS,
        ensures
            t.nanos() == n,
            t.canonical(),
    {
        MediaTime { secs: (n / NANOS_PER_SEC) as u64, sub_nanos: (n % NANOS_PER_SEC) as u32 }
    }

    /// The span of `n` microseconds.
    pub fn from_micros(n: u64) -> (t: MediaTime)
        ensures
            t.nanos() == n * 1_000,
            t.canonical(),
    {
        MediaTime::from_nanos(n as u128 * 1_000)
    }

    /// The span of `n` milliseconds.
    pub fn from_millis(n: u64) -> (t: MediaTime)
        ensures
            t.nanos() == n * 1_000_000,
            t.canonical(),
    {
        MediaTime::from_nanos(n as u128 * 1_000_000)
    }

    /// The span of `n` seconds.
    pub fn from_secs(n: u64) -> (t: MediaTime)
        ensures
            t == (MediaTime { secs: n, sub_nanos: 0 }),
            t.nanos() == n * 1_000_000_000,
            t.canonical(),
    {
        MediaTime { secs: n, sub_nanos: 0 }
    }

    /// The span's length in nanoseconds.
    pub fn to_nanos(&self) -> (n: u128)
        ensures
            n == self.nanos(),
            n <= u64::MAX * 1_000_000_000 + u32::MAX,
    {
        self.secs as u128 * NANOS_PER_SEC + self.sub_nanos as u128
    }

    /// `self + other`.
    pub fn plus(&self, other: &MediaTime) -> (t: MediaTime)
        requires
            self.nanos() + other.nanos() <= MAX_NANOS,
        ensures
            t.nanos() == self.nanos() + other.nanos(),
            t.canonical(),
    {
        MediaTime::from_nanos(self.to_nanos() + other.to_nanos())
    }

    /// `self - other`, or zero where `other` is the longer.
    pub fn saturating_sub(&self, other: &MediaTime) -> (t: MediaTime)
        requires
            self.nanos() <= MAX_NANOS,
        ensures
            t.nanos() == monus(self.nanos(), other.nanos()),
            t.canonical(),
    {
        let a: u128 = self.to_nanos();
        let b: u128 = other.to_nanos();
        if a >= b {
            MediaTime::from_nanos(a - b)
        } else {
            MediaTime::zero()
        }
    }

    /// Whether `self` is no longer than `other`.
    pub fn at_most(&self, other: &MediaTime) -> (b: bool)
        ensures
            b == (self.nanos() <= other.nanos()),
    {
        self.to_nanos() <= other.to_nanos()
    }

    /// Whether the span has no length.
    pub fn is_zero(&self) -> (b: bool)
        ensures
            b == (self.nanos() == 0),
    {
        self.secs == 0 && self.sub_nanos == 0
    }
}

/// `n / d` to the nearest integer, a tie to the even one.
pub fn nearest_div(n: u128, d: u128) -> (q: u128)
    requires
        0 < d < 0x8000_0000_0000_0000_0000_0000_0000_0000,
        n < 0x8000_0000_0000_0000_0000_0000_0000_0000,
    ensures
        q == nearest(n as int, d as int),
        q <= n / d + 1,
{
    let q: u128 = n / d;
    let r: u128 = n % d;
    proof {
        vstd::arithmetic::div_mod::lemma_div_is_ordered_by_denominator(n as int, 1, d as int);
    }
    if 2 * r < d || (2 * r == d && q % 2 == 0) {
        q
    } else {
        q + 1
    }
}

// ───────────────────── sample counts ─────────────────────

/// The nanoseconds that `samples` samples last at `rate` samples a second; a
/// rate of zero counts as one.
pub open spec fn sample_nanos(samples: int, rate: int) -> int {
    nearest(
        samples * 1_000_000_000,
        if rate < 1 {
            1
        } else {
            rate
        },
    )
}

/// The samples that have gone by, at `rate` samples a second, when a clock
/// reads `nanos`.
pub open spec fn samples_at(nanos: int, rate: int) -> int {
    let n = nanos * rate / 1_000_000_000;
    if n > u64::MAX {
        u64::MAX as int
    } else {
        n
    }
}

/// How long `samples` samples last at `rate` samples a second.
pub fn sample_span(samples: u64, rate: u32) -> (t: MediaTime)
    ensures
        t.nanos() == sample_nanos(samples as int, rate as int),
        t.nanos() <= samples * 1_000_000_000,
        t.canonical(),
{
    let d: u128 = if rate < 1 { 1 } else { rate as u128 };
    let n: u128 = samples as u128 * NANOS_PER_SEC;
    let q: u128 = nearest_div(n, d);
    proof {
        lemma_nearest_le(n as int, d as int);
    }
    MediaTime::from_nanos(q)
}

/// The sample count that a master clock reading stands for.
pub fn baseline_samples(raw_master: MediaTime, audio_rate: u32) -> (n: u64)
    ensures
        n == samples_at(raw_master.nanos(), audio_rate as int),
{
    let raw: u128 = raw_master.to_nanos();
    assert(raw * audio_rate <= 0x1_0000_0000_0000_0000_0000_0000u128 * 0xffff_ffffu128)
        by (nonlinear_arith)
        requires
            raw <= 0x1_0000_0000_0000_0000_0000_0000u128,
            audio_rate <= 0xffff_ffffu32,
    ;
    let n: u128 = raw * audio_rate as u128 / NANOS_PER_SEC;
    if n > u64::MAX as u128 {
        u64::MAX
    } else {
        n as u64
    }
}

proof fn lemma_nearest_le(n: int, d: int)
    requires
        n >= 0,
        d >= 1,
    ensures
        0 <= nearest(n, d) <= n,
{
    if d == 1 {
    } else {
        assert(nearest(n, d) <= n) by (nonlinear_arith)
            requires
                n >= 0,
                d >= 2,
                nearest(n, d) == (if 2 * (n % d) < d || (2 * (n % d) == d && (n / d) % 2 == 0) {
                    n / d
                } else {
                    n / d + 1
                }),
        ;
        assert(n / d >= 0) by (nonlinear_arith)
            requires
                n >= 0,
                d >= 2,
        ;
    }
}

// ───────────────────── the player's position ─────────────────────

/// The playback position: the anchor plus what the master clock has advanced
/// since the anchor was taken.
pub open spec fn position_nanos(origin: int, raw: int, baseline: int, rate: int) -> int {
    origin + monus(raw, sample_nanos(baseline, rate))
}

/// The playback position from the anchor (`clock_origin`), the driver's current
/// master clock (`raw_master`), the master clock when the anchor was taken
/// (`clock_baseline_samples`, as a sample count) and the source's `audio_rate`.
///
/// A master clock that reads less than at the anchor leaves the position at
/// the anchor.
pub fn position_from(
    clock_origin: MediaTime,
    raw_master: MediaTime,
    clock_baseline_samples: u64,
    audio_rate: u32,
) -> (position: MediaTime)
    requires
        position_nanos(
            clock_origin.nanos(),
            raw_master.nanos(),
            clock_baseline_samples as int,
            audio_rate as int,
        ) <= MAX_NANOS,
    ensures
        position.nanos() == position_nanos(
            clock_origin.nanos(),
            raw_master.nanos(),
            clock_baseline_samples as int,
            audio_rate as int,
        ),
        position.canonical(),
{
    let base: u128 = sample_span(clock_baseline_samples, audio_rate).to_nanos();
    let raw: u128 = raw_master.to_nanos();
    let advance: u128 = if raw >= base { raw - base } else { 0 };
    MediaTime::from_nanos(clock_origin.to_nanos() + advance)
}

// ───────────────────── stream time bases ─────────────────────

/// Seconds per timestamp tick, as the fraction `num / den`.
#[derive(Clone, Copy, Debug, PartialEq, Eq, Structural)]
pub struct TimeBase {
    pub num: i64,
    pub den: i64,
}

/// Which side of zero a timestamp lies on.
#[derive(Clone, Copy, Debug, PartialEq, Eq, Structural)]
pub enum Side {
    Before,
    Zero,
    After,
}

impl TimeBase {
    /// Whether a tick has a length: a zero denominator denotes no time base.
    pub open spec fn defined(self) -> bool {
        self.den != 0
    }

    /// The sign of the instant that `ticks` denotes, as a number of that sign.
    pub open spec fn instant_sign(self, ticks: int) -> int {
        if self.den < 0 {
            -(ticks * self.num)
        } else {
            ticks * self.num
        }
    }

    /// The distance from zero of the instant that `ticks` denotes.
    pub open spec fn instant_nanos(self, ticks: int) -> int {
        nearest(magnitude(ticks * self.num) * 1_000_000_000, magnitude(self.den as int))
    }

    /// Whether `ticks` denotes an instant at or after zero that a `MediaTime`
    /// holds.
    pub open spec fn reaches(self, ticks: int) -> bool {
        &&& self.defined()
        &&& self.instant_sign(ticks) >= 0
        &&& self.instant_nanos(ticks) <= MAX_NANOS
    }

    /// Whether the instant that `ticks` denotes lies beyond what a `MediaTime`
    /// holds.
    pub open spec fn beyond(self, ticks: int) -> bool {
        &&& self.defined()
        &&& self.instant_sign(ticks) >= 0
        &&& self.instant_nanos(ticks) > MAX_NANOS
    }

    /// The side of zero on which `ticks` lies.
    pub fn side(&self, ticks: i64) -> (s: Side)
        ensures
            s == (if self.instant_sign(ticks as int) < 0 {
                Side::Before
            } else if self.instant_sign(ticks as int) == 0 {
                Side::Zero
            } else {
                Side::After
            }),
    {
        let num = self.num;
        assert(ticks == 0 || num == 0 ==> ticks * num == 0) by (nonlinear_arith);
        assert((ticks > 0 && num > 0) || (ticks < 0 && num < 0) ==> ticks * num > 0)
            by (nonlinear_arith);
        assert((ticks > 0 && num < 0) || (ticks < 0 && num > 0) ==> ticks * num < 0)
            by (nonlinear_arith);
        if ticks == 0 || num == 0 {
            Side::Zero
        } else if ((ticks < 0) == (num < 0)) == (self.den >= 0) {
            Side::After
        } else {
            Side::Before
        }
    }

    /// The instant that `ticks` denotes: `None` where the time base is not
    /// defined or the instant lies before zero.
    pub fn time_of(&self, ticks: i64) -> (t: Option<MediaTime>)
        requires
            !self.beyond(ticks as int),
        ensures
            t is Some <==> self.reaches(ticks as int),
            t matches Some(m) ==> m.nanos() == self.instant_nanos(ticks as int) && m.canonical(),
    {
        if self.den == 0 {
            return None;
        }
        match self.side(ticks) {
            Side::Before => None,
            _ => {
                let n: Option<u128> = self.distance(ticks);
                match n {
                    Some(n) => Some(MediaTime::from_nanos(n)),
                    None => None,
                }
            },
        }
    }

    /// Whether the instant that `ticks` denotes lies beyond what a `MediaTime`
    /// holds.
    pub fn is_beyond(&self, ticks: i64) -> (b: bool)
        ensures
            b == self.beyond(ticks as int),
    {
        if self.den == 0 {
            return false;
        }
        match self.side(ticks) {
            Side::Before => false,
            _ => match self.distance(ticks) {
                Some(_) => false,
                None => true,
            },
        }
    }

    /// The timestamp nearest to the instant `nanos`, a tie away from zero, held
    /// to what a timestamp can be. Ticks of no length put every instant but zero
    /// at the far end of the timeline; without a time base every instant is at
    /// its start.
    pub open spec fn ticks_at(self, nanos: int) -> int {
        if self.den == 0 || (self.num == 0 && nanos == 0) {
            0
        } else if self.num == 0 {
            if self.den > 0 {
                i64::MAX as int
            } else {
                i64::MIN as int
            }
        } else {
            let q = nearest_away(
                nanos * magnitude(self.den as int),
                magnitude(self.num as int) * 1_000_000_000,
            );
            if (self.num < 0) == (self.den < 0) {
                if q > i64::MAX {
                    i64::MAX as int
                } else {
                    q
                }
            } else {
                if -q < i64::MIN {
                    i64::MIN as int
                } else {
                    -q
                }
            }
        }
    }

    /// The timestamp to seek to for the instant `target`.
    pub fn ticks_of(&self, target: MediaTime) -> (ticks: i64)
        ensures
            ticks == self.ticks_at(target.nanos()),
    {
        if self.den == 0 || (self.num == 0 && target.is_zero()) {
            return 0;
        }
        if self.num == 0 {
            return if self.den > 0 { i64::MAX } else { i64::MIN };
        }
        let n: u128 = abs_i64(self.num) as u128;
        let d: u128 = abs_i64(self.den) as u128;
        let s: u128 = target.secs as u128;
        let b: u128 = target.sub_nanos as u128;
        assert(s * d <= 0xffff_ffff_ffff_ffffu128 * 0x8000_0000_0000_0000u128) by (nonlinear_arith)
            requires
                s <= 0xffff_ffff_ffff_ffffu128,
                d <= 0x8000_0000_0000_0000u128,
        ;
        assert(b * d <= 0xffff_ffffu128 * 0x8000_0000_0000_0000u128) by (nonlinear_arith)
            requires
                b <= 0xffff_ffffu128,
                d <= 0x8000_0000_0000_0000u128,
        ;
        let whole: u128 = s * d / n;
        let rest: u128 = s * d % n;
        let m: u128 = rest * NANOS_PER_SEC + b * d;
        let unit: u128 = n * NANOS_PER_SEC;
        proof {
            lemma_split_ticks(s as int, b as int, d as int, n as int);
            assert(m / unit <= m) by (nonlinear_arith)
                requires
                    unit > 0,
                    m >= 0,
            ;
            assert(whole <= s * d) by (nonlinear_arith)
                requires
                    whole == (s * d) / (n as int),
                    n > 0,
                    s * d >= 0,
            ;
        }
        let q: u128 = if 2 * (m % unit) < unit {
            whole + m / unit
        } else {
            whole + m / unit + 1
        };
        if (self.num < 0) == (self.den < 0) {
            if q > i64::MAX as u128 {
                i64::MAX
            } else {
                q as i64
            }
        } else {
            if q > 0x8000_0000_0000_0000u128 {
                i64::MIN
            } else {
                (-(q as i128)) as i64
            }
        }
    }

    /// The distance from zero, in nanoseconds, of the instant that `ticks`
    /// denotes; `None` where a `MediaTime` does not hold it.
    fn distance(&self, ticks: i64) -> (n: Option<u128>)
        requires
            self.defined(),
        ensures
            n is Some <==> self.instant_nanos(ticks as int) <= MAX_NANOS,
            n matches Some(v) ==> v == self.instant_nanos(ticks as int),
    {
        let a: u128 = abs_i64(ticks) as u128;
        let b: u128 = abs_i64(self.num) as u128;
        let d: u128 = abs_i64(self.den) as u128;
        assert(a * b <= 0x8000_0000_0000_0000u128 * 0x8000_0000_0000_0000u128) by (nonlinear_arith)
            requires
                a <= 0x8000_0000_0000_0000u128,
                b <= 0x8000_0000_0000_0000u128,
        ;
        let p: u128 = a * b;
        proof {
            lemma_magnitude_product(ticks as int, self.num as int);
            lemma_split_seconds(p as int, d as int);
        }
        let secs: u128 = p / d;
        let rest: u128 = p % d;
        let frac: u128 = nearest_div(rest * NANOS_PER_SEC, d);
        proof {
            lemma_nearest_below(rest as int, d as int);
        }
        if secs > u64::MAX as u128 {
            return None;
        }
        let total: u128 = secs * NANOS_PER_SEC + frac;
        if total <= MAX_NANOS {
            Some(total)
        } else {
            None
        }
    }
}

/// The absolute value of `x`.
fn abs_i64(x: i64) -> (a: u64)
    ensures
        a == magnitude(x as int),
        a <= 0x8000_0000_0000_0000,
{
    if x < 0 {
        (-(x as i128)) as u64
    } else {
        x as u64
    }
}

proof fn lemma_magnitude_product(a: int, b: int)
    ensures
        magnitude(a * b) == magnitude(a) * magnitude(b),
{
    assert(magnitude(a * b) == magnitude(a) * magnitude(b)) by (nonlinear_arith);
}

proof fn lemma_split_seconds(p: int, d: int)
    requires
        p >= 0,
        d > 0,
    ensures
        nearest(p * 1_000_000_000, d) == (p / d) * 1_000_000_000 + nearest(
            (p % d) * 1_000_000_000,
            d,
        ),
        p / d >= 0,
        0 <= p % d < d,
{
    let q = p / d;
    let r = p % d;
    assert(p == d * q + r && 0 <= r < d && q >= 0) by (nonlinear_arith)
        requires
            p >= 0,
            d > 0,
            q == p / d,
            r == p % d,
    ;
    let m = r * 1_000_000_000;
    assert(p * 1_000_000_000 == d * (q * 1_000_000_000) + m) by (nonlinear_arith)
        requires
            p == d * q + r,
            m == r * 1_000_000_000,
    ;
    lemma_carry(q * 1_000_000_000, m, d);
}

/// Adding a whole number of divisors moves the quotient by that number.
proof fn lemma_carry(k: int, m: int, d: int)
    requires
        d > 0,
    ensures
        (d * k + m) / d == k + m / d,
        (d * k + m) % d == m % d,
{
    vstd::arithmetic::div_mod::lemma_hoist_over_denominator(m, k, d as nat);
    vstd::arithmetic::div_mod::lemma_mod_multiples_vanish(k, m, d);
    assert(d * k == k * d) by (nonlinear_arith);
}

proof fn lemma_nearest_below(r: int, d: int)
    requires
        0 <= r < d,
    ensures
        0 <= nearest(r * 1_000_000_000, d) <= 1_000_000_000,
{
    let m = r * 1_000_000_000;
    assert(0 <= m / d <= 999_999_999) by (nonlinear_arith)
        requires
            0 <= r < d,
            m == r * 1_000_000_000,
    ;
}

proof fn lemma_split_ticks(s: int, b: int, d: int, n: int)
    requires
        s >= 0,
        b >= 0,
        d > 0,
        n > 0,
    ensures
        0 <= (s * d) % n < n,
        nearest_away((s * 1_000_000_000 + b) * d, n * 1_000_000_000) == (s * d) / n + nearest_away(
            ((s * d) % n) * 1_000_000_000 + b * d,
            n * 1_000_000_000,
        ),
{
    let w = (s * d) / n;
    let r = (s * d) % n;
    let unit = n * 1_000_000_000;
    let m = r * 1_000_000_000 + b * d;
    assert(s * d >= 0) by (nonlinear_arith)
        requires
            s >= 0,
            d > 0,
    ;
    vstd::arithmetic::div_mod::lemma_fundamental_div_mod(s * d, n);
    assert((s * 1_000_000_000 + b) * d == unit * w + m) by (nonlinear_arith)
        requires
            s * d == n * w + r,
            unit == n * 1_000_000_000,
            m == r * 1_000_000_000 + b * d,
    ;
    lemma_carry(w, m, unit);
}

// ───────────────────── laws ─────────────────────

/// Rounding gives the nearest whole number: it is at most half a unit off, and where two
/// are as near it is the even one. Rounding away from zero takes the larger one there.
pub proof fn law_rounding_is_to_the_nearest(n: int, d: int)
    requires
        d > 0,
    ensures
        ({
            let e = nearest(n, d) * d - n;
            &&& -d <= 2 * e <= d
            &&& 2 * e == d || 2 * e == -d ==> nearest(n, d) % 2 == 0
        }),
        -d < 2 * (nearest_away(n, d) * d - n) <= d,
{
    vstd::arithmetic::div_mod::lemma_fundamental_div_mod(n, d);
    let q = n / d;
    let r = n % d;
    assert(q * d == d * q) by (nonlinear_arith);
    assert((q + 1) * d == d * q + d) by (nonlinear_arith);
}

/// What a span lacks of a longer one is what makes it up; a longer one lacks nothing.
pub proof fn law_monus_makes_up_the_difference(a: int, b: int)
    ensures
        b <= a ==> monus(a, b) + b == a,
        b >= a ==> monus(a, b) == 0,
{
}

/// Samples last as long as the rate says: a second for as many as the rate, to half a
/// nanosecond.
pub proof fn law_samples_last_by_the_rate(samples: int, rate: int)
    requires
        rate > 0,
    ensures
        -rate <= 2 * (sample_nanos(samples, rate) * rate - samples * 1_000_000_000) <= rate,
{
    law_rounding_is_to_the_nearest(samples * 1_000_000_000, rate);
}

/// A clock reading counts the samples that are over: all of them, and not the one that
/// still plays, as far as a counter goes.
pub proof fn law_only_whole_samples_count(nanos: int, rate: int)
    requires
        nanos >= 0,
        rate >= 0,
    ensures
        ({
            let n = samples_at(nanos, rate);
            &&& 0 <= n <= u64::MAX
            &&& n * 1_000_000_000 <= nanos * rate
            &&& n < u64::MAX ==> nanos * rate < (n + 1) * 1_000_000_000
        }),
{
    assert(nanos * rate >= 0) by (nonlinear_arith)
        requires
            nanos >= 0,
            rate >= 0,
    ;
}

/// The position keeps its distance to the master clock: from the reading of the anchor on
/// both advance alike, whatever the anchor is.
pub proof fn law_position_keeps_pace(origin: int, baseline: int, rate: int, elapsed: int)
    requires
        elapsed >= 0,
    ensures
        ({
            let anchor = sample_nanos(baseline, rate);
            position_nanos(origin, anchor + elapsed, baseline, rate) == origin + elapsed
        }),
{
}

/// A timestamp denotes the instant that its ticks make up, to half a nanosecond: so many
/// times the length of a tick. It has an instant wherever that does not lie before zero.
pub proof fn law_an_instant_is_so_many_ticks(tb: TimeBase, ticks: int)
    ensures
        tb.reaches(ticks) || tb.beyond(ticks) <==> tb.den != 0 && ticks * tb.num * tb.den >= 0,
        tb.reaches(ticks) ==> 0 <= tb.instant_nanos(ticks) <= 18_446_744_073_709_551_615_999_999_999,
        tb.beyond(ticks) ==> tb.instant_nanos(ticks) > 18_446_744_073_709_551_615_999_999_999,
        tb.den != 0 && ticks * tb.num * tb.den >= 0 ==> {
            let e = tb.instant_nanos(ticks) * (tb.den * tb.den) - ticks * tb.num * tb.den
                * 1_000_000_000;
            -(tb.den * tb.den) <= 2 * e <= tb.den * tb.den
        },
{
    let p = ticks * tb.num;
    let den = tb.den as int;
    let s = tb.instant_sign(ticks);
    let d = magnitude(den);
    assert(den > 0 ==> (p * den >= 0 <==> p >= 0)) by (nonlinear_arith);
    assert(den < 0 ==> (p * den >= 0 <==> p <= 0)) by (nonlinear_arith);
    if den != 0 {
        let x = magnitude(p) * 1_000_000_000;
        let t = tb.instant_nanos(ticks);
        lemma_nearest_le(x, d);
        law_rounding_is_to_the_nearest(x, d);
        if p * den >= 0 {
            let e = t * d - x;
            assert(x * d == p * den * 1_000_000_000) by (nonlinear_arith)
                requires
                    x == magnitude(p) * 1_000_000_000,
                    d == magnitude(den),
                    p * den >= 0,
                    den > 0 && p >= 0 || den < 0 && p <= 0,
            ;
            assert(den * den == d * d) by (nonlinear_arith)
                requires
                    d == den || d == -den,
            ;
            assert(t * (d * d) - x * d == e * d) by (nonlinear_arith)
                requires
                    e == t * d - x,
            ;
            assert(-(d * d) <= 2 * (e * d) <= d * d) by (nonlinear_arith)
                requires
                    -d <= 2 * e <= d,
                    d > 0,
            ;
        }
    }
}

/// A seek asks for the timestamp nearest to the instant: it is at most half a tick off,
/// as far as timestamps go.
pub proof fn law_a_seek_asks_for_the_nearest_timestamp(tb: TimeBase, nanos: int)
    requires
        tb.num != 0,
        tb.den != 0,
        nanos >= 0,
        i64::MIN < tb.ticks_at(nanos) < i64::MAX,
    ensures
        ({
            let tick = magnitude(tb.num as int) * 1_000_000_000;
            let e = tb.ticks_at(nanos) * tb.num * 1_000_000_000 - nanos * tb.den;
            -tick <= 2 * e <= tick
        }),
{
    let n = tb.num as int;
    let d = tb.den as int;
    let u = magnitude(n) * 1_000_000_000;
    let x = nanos * magnitude(d);
    let q = nearest_away(x, u);
    let t = tb.ticks_at(nanos);
    law_rounding_is_to_the_nearest(x, u);
    let e = q * u - x;
    assert(q >= 0) by {
        assert(x >= 0) by (nonlinear_arith)
            requires
                x == nanos * magnitude(d),
                nanos >= 0,
                magnitude(d) >= 0,
        ;
        vstd::arithmetic::div_mod::lemma_div_pos_is_pos(x, u);
    }
    let f = t * n * 1_000_000_000 - nanos * d;
    assert(t == q || t == -q);
    if (n < 0) == (d < 0) {
        assert(f == e || f == -e) by (nonlinear_arith)
            requires
                t == q,
                n > 0 && d > 0 || n < 0 && d < 0,
                u == magnitude(n) * 1_000_000_000,
                x == nanos * magnitude(d),
                e == q * u - x,
                f == t * n * 1_000_000_000 - nanos * d,
        ;
    } else {
        assert(f == e || f == -e) by (nonlinear_arith)
            requires
                t == -q,
                n > 0 && d < 0 || n < 0 && d > 0,
                u == magnitude(n) * 1_000_000_000,
                x == nanos * magnitude(d),
                e == q * u - x,
                f == t * n * 1_000_000_000 - nanos * d,
        ;
    }
}

/// A timestamp can be asked for wherever it is one: only an instant that lies at or beyond
/// the last timestamp, to half a tick, is sought at the end.
pub proof fn law_only_far_instants_are_sought_at_the_end(tb: TimeBase, nanos: int)
    requires
        tb.num > 0,
        tb.den > 0,
        nanos >= 0,
    ensures
        0 <= tb.ticks_at(nanos) <= i64::MAX,
        tb.ticks_at(nanos) == i64::MAX ==> 2 * (nanos * tb.den) >= (2 * i64::MAX - 1) * (tb.num
            * 1_000_000_000),
{
    let u = tb.num * 1_000_000_000;
    let x = nanos * tb.den;
    assert(x >= 0) by (nonlinear_arith)
        requires
            x == nanos * tb.den,
            nanos >= 0,
            tb.den > 0,
    ;
    let q = nearest_away(x, u);
    law_rounding_is_to_the_nearest(x, u);
    vstd::arithmetic::div_mod::lemma_div_pos_is_pos(x, u);
    if tb.ticks_at(nanos) == i64::MAX {
        assert(q >= i64::MAX);
        assert(2 * x >= (2 * i64::MAX - 1) * u) by (nonlinear_arith)
            requires
                q >= i64::MAX,
                2 * (q * u - x) <= u,
                u > 0,
        ;
    }
}

/// Without a tick that has a length there is nothing to count: the start stays the start,
/// and without a time base everything is at the start.
pub proof fn law_a_degenerate_time_base_seeks_the_ends(tb: TimeBase, nanos: int)
    requires
        tb.num == 0 || tb.den == 0,
        nanos >= 0,
    ensures
        tb.den == 0 || nanos == 0 <==> tb.ticks_at(nanos) == 0,
        tb.den > 0 && nanos > 0 ==> tb.ticks_at(nanos) == i64::MAX,
        tb.den < 0 && nanos > 0 ==> tb.ticks_at(nanos) == i64::MIN,
{
}

/// Reading the position never moves it back: a later master clock gives a
/// later position, or the same one.
pub proof fn law_position_is_monotone(origin: int, raw: int, later: int, baseline: int, rate: int)
    requires
        raw <= later,
    ensures
        position_nanos(origin, raw, baseline, rate) <= position_nanos(
            origin,
            later,
            baseline,
            rate,
        ),
{
}

/// A master clock that dips below where it stood at the anchor leaves the
/// position at the anchor.
pub proof fn law_position_holds_the_anchor(origin: int, raw: int, baseline: int, rate: int)
    requires
        raw <= sample_nanos(baseline, rate),
    ensures
        position_nanos(origin, raw, baseline, rate) == origin,
{
}

/// Anchoring at `landed` while the master clock reads `raw` makes the position
/// `landed` right away, to within one sample, and from then on the position
/// advances by exactly what the master clock advances.
pub proof fn law_anchor_is_immediate(landed: int, raw: int, rate: int, elapsed: int)
    requires
        raw >= 0,
        rate > 0,
        elapsed >= 0,
        raw * rate / 1_000_000_000 <= u64::MAX,
    ensures
        ({
            let baseline = samples_at(raw, rate);
            let now = position_nanos(landed, raw, baseline, rate);
            &&& landed <= now
            &&& (now - landed) * rate < 1_000_000_000 + rate
            &&& position_nanos(landed, raw + elapsed, baseline, rate) == now + elapsed
        }),
{
    let b = samples_at(raw, rate);
    let n = b * 1_000_000_000;
    vstd::arithmetic::div_mod::lemma_fundamental_div_mod(raw * rate, 1_000_000_000);
    assert(raw * rate >= 0) by (nonlinear_arith)
        requires
            raw >= 0,
            rate > 0,
    ;
    vstd::arithmetic::div_mod::lemma_fundamental_div_mod(n, rate);
    let q = n / rate;
    let r = n % rate;
    // n <= raw * rate < n + 1_000_000_000
    assert(q <= raw) by (nonlinear_arith)
        requires
            n == rate * q + r,
            r >= 0,
            n <= raw * rate,
            rate > 0,
    ;
    assert(r > 0 ==> q + 1 <= raw) by (nonlinear_arith)
        requires
            n == rate * q + r,
            0 <= r < rate,
            n <= raw * rate,
            rate > 0,
            q <= raw,
    ;
    let base = nearest(n, rate);
    assert(base <= raw);
    assert((raw - base) * rate < 1_000_000_000 + rate) by (nonlinear_arith)
        requires
            base >= q,
            n == rate * q + r,
            r < rate,
            raw * rate < n + 1_000_000_000,
            rate > 0,
    ;
}

/// Timestamps and instants run the same way: on a time base that runs forward
/// a later timestamp denotes a later instant, or the same nanosecond.
pub proof fn law_instants_follow_timestamps(tb: TimeBase, a: int, b: int)
    requires
        tb.num >= 0,
        tb.den > 0,
        0 <= a <= b,
    ensures
        tb.instant_nanos(a) <= tb.instant_nanos(b),
{
    let x = a * tb.num;
    let y = b * tb.num;
    assert(0 <= x <= y) by (nonlinear_arith)
        requires
            x == a * tb.num,
            y == b * tb.num,
            0 <= a <= b,
            tb.num >= 0,
    ;
    lemma_nearest_is_monotone(x * 1_000_000_000, y * 1_000_000_000, tb.den as int);
}

proof fn lemma_nearest_is_monotone(x: int, y: int, d: int)
    requires
        0 <= x <= y,
        d > 0,
    ensures
        nearest(x, d) <= nearest(y, d),
{
    vstd::arithmetic::div_mod::lemma_div_is_ordered(x, y, d);
    vstd::arithmetic::div_mod::lemma_fundamental_div_mod(x, d);
    vstd::arithmetic::div_mod::lemma_fundamental_div_mod(y, d);
    if x / d == y / d {
        assert(d * (x / d) == d * (y / d));
    }
}

/// Seeking to the instant that a timestamp denotes asks for that timestamp
/// again, wherever a tick lasts longer than a nanosecond.
pub proof fn law_seek_undoes_presentation(tb: TimeBase, ticks: i64)
    requires
        tb.num > 0,
        tb.den > 0,
        tb.num * 1_000_000_000 > tb.den,
        ticks >= 0,
    ensures
        tb.ticks_at(tb.instant_nanos(ticks as int)) == ticks,
{
    let p = ticks as int;
    let n = tb.num as int;
    let d = tb.den as int;
    let u = n * 1_000_000_000;
    assert(p * n >= 0) by (nonlinear_arith)
        requires
            p >= 0,
            n > 0,
    ;
    let x = (p * n) * 1_000_000_000;
    assert(x == p * u) by (nonlinear_arith)
        requires
            x == (p * n) * 1_000_000_000,
            u == n * 1_000_000_000,
    ;
    let t = nearest(x, d);
    vstd::arithmetic::div_mod::lemma_fundamental_div_mod(x, d);
    let q = x / d;
    let r = x % d;
    // t * d lies within half of d of x, and d < u.
    let y = t * d;
    assert(2 * (y - x) <= d && 2 * (x - y) <= d) by (nonlinear_arith)
        requires
            x == d * q + r,
            0 <= r < d,
            y == t * d,
            t == q && 2 * r <= d || t == q + 1 && 2 * r >= d,
    ;
    if y >= x {
        lemma_carry(p, y - x, u);
        assert(u * p == p * u) by (nonlinear_arith);
        vstd::arithmetic::div_mod::lemma_small_mod((y - x) as nat, u as nat);
        vstd::arithmetic::div_mod::lemma_basic_div(y - x, u);
    } else {
        // y == (p - 1) * u + (u - (x - y)), and the remainder is past the half.
        lemma_carry(p - 1, u - (x - y), u);
        assert(u * (p - 1) + u == p * u) by (nonlinear_arith);
        vstd::arithmetic::div_mod::lemma_small_mod((u - (x - y)) as nat, u as nat);
        vstd::arithmetic::div_mod::lemma_basic_div(u - (x - y), u);
    }
}

} // verus!
