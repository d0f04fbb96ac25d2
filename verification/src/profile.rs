//! The per-section profiler: how long each part of a tick takes, rolled up once a
//! second.

use vstd::prelude::*;

use crate::clock::{nearest_div, MediaTime};
use crate::text::push_decimal;
#[allow(unused_imports)]
use crate::clock::{law_rounding_is_to_the_nearest, monus, nearest};
#[allow(unused_imports)]
use crate::text::decimal;

verus! {

/// How long a roll-up lasts, in nanoseconds.
pub const FLUSH_NANOS: u128 = 1_000_000_000;

/// A part of a tick.
#[derive(Clone, Copy, Debug, PartialEq, Eq, Structural)]
pub enum ProfSection {
    PollEvents,
    PumpInbox,
    Present,
    Status,
    Sleep,
    Total,
}

impl ProfSection {
    /// The section's place in the report.
    pub open spec fn place(self) -> int {
        match self {
            ProfSection::PollEvents => 0,
            ProfSection::PumpInbox => 1,
            ProfSection::Present => 2,
            ProfSection::Status => 3,
            ProfSection::Sleep => 4,
            ProfSection::Total => 5,
        }
    }

    /// The section's place in the report.
    fn index(self) -> (i: usize)
        ensures
            i == self.place(),
            i < 6,
    {
        match self {
            ProfSection::PollEvents => 0,
            ProfSection::PumpInbox => 1,
            ProfSection::Present => 2,
            ProfSection::Status => 3,
            ProfSection::Sleep => 4,
            ProfSection::Total => 5,
        }
    }
}

/// What has been measured of one section since the last report.
#[derive(Clone, Copy, Debug, PartialEq, Eq, Structural)]
pub struct SectionStats {
    pub count: u64,
    pub nanos: u64,
    pub max_nanos: u64,
}

impl SectionStats {
    /// Nothing measured.
    pub open spec fn none() -> SectionStats {
        SectionStats { count: 0, nanos: 0, max_nanos: 0 }
    }

    /// After one more measurement of `n` nanoseconds.
    pub open spec fn with(self, n: int) -> SectionStats {
        SectionStats {
            count: (self.count + 1) as u64,
            nanos: (self.nanos + n) as u64,
            max_nanos: if n > self.max_nanos {
                n as u64
            } else {
                self.max_nanos
            },
        }
    }
}

/// The profiler's bookkeeping.
pub struct ProfileBucket {
    pub enabled: bool,
    /// When the last report was made, on a monotonic clock.
    pub last_flush: MediaTime,
    /// What has been measured, one entry a section.
    pub stats: Vec<SectionStats>,
}

/// The name of a section in the report.
pub open spec fn section_name(i: int) -> Seq<char> {
    if i == 0 {
        "poll"@
    } else if i == 1 {
        "pump"@
    } else if i == 2 {
        "pres"@
    } else if i == 3 {
        "stat"@
    } else if i == 4 {
        "slep"@
    } else {
        "total"@
    }
}

/// The report's part on one section: its mean and its worst time, in whole
/// microseconds.
pub open spec fn section_part(i: int, s: SectionStats) -> Seq<char> {
    let c = if s.count < 1 {
        1
    } else {
        s.count as int
    };
    section_name(i) + "=avg"@ + decimal(nearest(s.nanos as int, c * 1000) as nat) + "us/max"@
        + decimal(nearest(s.max_nanos as int, 1000) as nat) + "us"@
}

/// The report's parts on the first `n` sections, each with a blank behind it.
pub open spec fn section_parts(stats: Seq<SectionStats>, n: nat) -> Seq<char>
    decreases n,
{
    if n == 0 {
        Seq::empty()
    } else {
        section_parts(stats, (n - 1) as nat) + section_part(n - 1, stats[n - 1]) + " "@
    }
}

/// The report.
pub open spec fn profile_report(stats: Seq<SectionStats>) -> Seq<char> {
    "oxideplay: PROFILE "@ + section_parts(stats, 6) + "ticks="@ + decimal(stats[5].count as nat)
}

impl ProfileBucket {
    /// Whether there is one entry a section.
    pub open spec fn well_formed(self) -> bool {
        self.stats@.len() == 6
    }

    /// Whether a report is due when the clock reads `now`.
    pub open spec fn due(self, now: MediaTime) -> bool {
        self.enabled && monus(now.nanos(), self.last_flush.nanos()) >= FLUSH_NANOS
    }

    /// An empty bucket; `now` is the reading of a monotonic clock.
    pub fn new(enabled: bool, now: MediaTime) -> (p: Self)
        ensures
            p.well_formed(),
            p.enabled == enabled,
            p.last_flush == now,
            p.stats@ == Seq::new(6, |i: int| SectionStats::none()),
    {
        ProfileBucket { enabled, last_flush: now, stats: Self::blank() }
    }

    /// The entries of an empty bucket.
    fn blank() -> (v: Vec<SectionStats>)
        ensures
            v@ == Seq::new(6, |i: int| SectionStats::none()),
    {
        let mut v: Vec<SectionStats> = Vec::new();
        let mut i: usize = 0;
        while i < 6
            invariant
                i <= 6,
                v@ == Seq::new(i as nat, |i: int| SectionStats::none()),
            decreases 6 - i,
        {
            v.push(SectionStats { count: 0, nanos: 0, max_nanos: 0 });
            i += 1;
            assert(v@ == Seq::new(i as nat, |i: int| SectionStats::none()));
        }
        v
    }

    /// Whether the totals can still hold a measurement.
    pub fn can_record(&self, section: ProfSection, elapsed: MediaTime) -> (b: bool)
        requires
            self.well_formed(),
        ensures
            b == self.holds(section, elapsed),
    {
        if !self.enabled {
            return true;
        }
        let s = self.stats[section.index()];
        let n: u64 = (elapsed.to_nanos() % 0x1_0000_0000_0000_0000) as u64;
        s.count < u64::MAX && n <= u64::MAX - s.nanos
    }

    /// Whether the totals can still hold a measurement.
    pub open spec fn holds(self, section: ProfSection, elapsed: MediaTime) -> bool {
        self.enabled ==> {
            let s = self.stats@[section.place()];
            &&& s.count < u64::MAX
            &&& s.nanos + elapsed.nanos() % 0x1_0000_0000_0000_0000 <= u64::MAX
        }
    }

    /// Adds a measurement. A disabled bucket stays as it is. The time counts
    /// modulo two to the sixty-fourth nanoseconds.
    pub fn record(&mut self, section: ProfSection, elapsed: MediaTime)
        requires
            old(self).well_formed(),
            old(self).holds(section, elapsed),
        ensures
            final(self).well_formed(),
            final(self).enabled == old(self).enabled,
            final(self).last_flush == old(self).last_flush,
            !old(self).enabled ==> final(self).stats == old(self).stats,
            old(self).enabled ==> final(self).stats@ == old(self).stats@.update(
                section.place(),
                old(self).stats@[section.place()].with(
                    elapsed.nanos() % 0x1_0000_0000_0000_0000,
                ),
            ),
    {
        if !self.enabled {
            return;
        }
        let i: usize = section.index();
        let n: u64 = (elapsed.to_nanos() % 0x1_0000_0000_0000_0000) as u64;
        let s = self.stats[i];
        self.stats.set(
            i,
            SectionStats {
                count: s.count + 1,
                nanos: s.nanos + n,
                max_nanos: if n > s.max_nanos {
                    n
                } else {
                    s.max_nanos
                },
            },
        );
    }

    /// The report, if one is due when the clock reads `now`; the bucket is then
    /// empty again.
    pub fn maybe_flush(&mut self, now: MediaTime) -> (line: Option<String>)
        requires
            old(self).well_formed(),
        ensures
            final(self).well_formed(),
            line is Some <==> old(self).due(now),
            line matches Some(s) ==> {
                &&& s@ == profile_report(old(self).stats@)
                &&& final(self).enabled
                &&& final(self).last_flush == now
                &&& final(self).stats@ == Seq::new(6, |i: int| SectionStats::none())
            },
            line is None ==> *final(self) == *old(self),
    {
        if !self.enabled {
            return None;
        }
        let a: u128 = now.to_nanos();
        let b: u128 = self.last_flush.to_nanos();
        let since: u128 = if a >= b { a - b } else { 0 };
        if since < FLUSH_NANOS {
            return None;
        }
        let mut line = String::new();
        line.append("oxideplay: PROFILE ");
        let ghost head = line@;
        let ghost stats = self.stats@;
        let mut i: usize = 0;
        assert(line@ == head + section_parts(stats, 0));
        while i < 6
            invariant
                i <= 6,
                self.stats@ == stats,
                stats.len() == 6,
                line@ == head + section_parts(stats, i as nat),
            decreases 6 - i,
        {
            let s = self.stats[i];
            let c: u128 = if s.count < 1 { 1 } else { s.count as u128 };
            assert(c * 1000 == c as int * 1000);
            let avg: u128 = nearest_div(s.nanos as u128, c * 1000);
            let max: u128 = nearest_div(s.max_nanos as u128, 1000);
            proof {
                vstd::arithmetic::div_mod::lemma_div_is_ordered_by_denominator(
                    s.nanos as int,
                    1000,
                    c * 1000,
                );
            }
            line.append(Self::name(i));
            line.append("=avg");
            push_decimal(&mut line, avg as u64);
            line.append("us/max");
            push_decimal(&mut line, max as u64);
            line.append("us");
            line.append(" ");
            i += 1;
            assert(line@ == head + section_parts(stats, i as nat));
        }
        line.append("ticks=");
        push_decimal(&mut line, self.stats[5].count);
        assert(line@ == profile_report(stats));
        self.stats = Self::blank();
        self.last_flush = now;
        Some(line)
    }

    /// The name of a section in the report.
    fn name(i: usize) -> (s: &'static str)
        requires
            i < 6,
        ensures
            s@ == section_name(i as int),
    {
        if i == 0 {
            "poll"
        } else if i == 1 {
            "pump"
        } else if i == 2 {
            "pres"
        } else if i == 3 {
            "stat"
        } else if i == 4 {
            "slep"
        } else {
            "total"
        }
    }
}

// ───────────────────── laws ─────────────────────

/// Whether a section's worst time is within its whole time, and its whole time within
/// that many times the worst.
pub open spec fn plausible(s: SectionStats) -> bool {
    s.max_nanos <= s.nanos <= s.count * s.max_nanos
}

/// A section's worst time never exceeds its whole time, and its mean never exceeds its
/// worst, whatever is measured.
pub proof fn law_the_worst_is_part_of_the_whole(s: SectionStats, n: int)
    requires
        plausible(s),
        0 <= n,
        s.count < u64::MAX,
        s.nanos + n <= u64::MAX,
    ensures
        plausible(SectionStats::none()),
        plausible(s.with(n)),
        s.max_nanos <= s.with(n).max_nanos,
        n <= s.with(n).max_nanos,
{
    let t = s.with(n);
    assert(s.count * s.max_nanos <= s.count * t.max_nanos) by (nonlinear_arith)
        requires
            s.max_nanos <= t.max_nanos,
            s.count >= 0,
    ;
    assert((s.count + 1) * t.max_nanos == s.count * t.max_nanos + t.max_nanos)
        by (nonlinear_arith);
}

/// A measurement adds itself to its section: one more is counted, the whole grows by it,
/// and the worst is it or the worst before.
pub proof fn law_measurements_add_up(s: SectionStats, n: int)
    requires
        0 <= n,
        s.count < u64::MAX,
        s.nanos + n <= u64::MAX,
    ensures
        s.with(n).count == s.count + 1,
        s.with(n).nanos == s.nanos + n,
        s.with(n).max_nanos == n || s.with(n).max_nanos == s.max_nanos,
        s.with(n).max_nanos >= n && s.with(n).max_nanos >= s.max_nanos,
{
}

/// A report is due a second after the last, from a bucket that measures.
pub proof fn law_reports_are_due_each_second(p: ProfileBucket, now: MediaTime)
    ensures
        p.due(now) <==> p.enabled && now.nanos() >= p.last_flush.nanos() + 1_000_000_000,
{
}

/// Each section has a place of its own among the six.
pub proof fn law_sections_have_their_own_place(a: ProfSection, b: ProfSection)
    ensures
        0 <= a.place() < 6,
        a.place() == b.place() ==> a == b,
{
}

/// The report gives a section's mean and its worst time in microseconds, each to the
/// nearest one.
pub proof fn law_times_are_reported_in_microseconds(
    i: int,
    s: SectionStats,
    mean: nat,
    worst: nat,
)
    requires
        s.count > 0,
        -(s.count * 1000) < 2 * (mean * (s.count * 1000) - s.nanos) < s.count * 1000,
        -1000 < 2 * (worst * 1000 - s.max_nanos) < 1000,
    ensures
        section_part(i, s) == section_name(i) + "=avg"@ + decimal(mean) + "us/max"@ + decimal(worst)
            + "us"@,
{
    lemma_nearest_is_the_one(s.nanos as int, s.count * 1000, mean as int);
    lemma_nearest_is_the_one(s.max_nanos as int, 1000, worst as int);
}

proof fn lemma_nearest_is_the_one(n: int, d: int, q: int)
    requires
        d > 0,
        -d < 2 * (q * d - n) < d,
    ensures
        nearest(n, d) == q,
{
    law_rounding_is_to_the_nearest(n, d);
    let p = nearest(n, d);
    assert(p == q) by (nonlinear_arith)
        requires
            d > 0,
            -d < 2 * (q * d - n) < d,
            -d <= 2 * (p * d - n) <= d,
    ;
}

} // verus!
