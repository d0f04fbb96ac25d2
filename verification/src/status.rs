//! The status output.

use vstd::prelude::*;

use crate::clock::MediaTime;
use crate::engine::VOLUME_POINT;
use crate::text::{push_decimal, push_right_aligned};
#[allow(unused_imports)]
use crate::clock::{law_rounding_is_to_the_nearest, monus, nearest_away};
#[allow(unused_imports)]
use crate::text::{decimal, right_aligned};

verus! {

/// How far apart printed status lines are, in nanoseconds.
pub const STATUS_NANOS: u128 = 1_000_000_000;

/// What a tick does about the status.
#[derive(Clone, Copy, Debug, PartialEq, Eq, Structural)]
pub enum StatusAction {
    /// Redraw the terminal's status line.
    Draw,
    /// Print a status line.
    Print,
    Nothing,
}

/// When the status was last due.
pub struct StatusClock {
    /// On a monotonic clock.
    pub last_status: MediaTime,
}

impl StatusClock {
    /// Whether the status is due when the clock reads `now`.
    pub open spec fn due(self, now: MediaTime) -> bool {
        monus(now.nanos(), self.last_status.nanos()) >= STATUS_NANOS
    }

    /// What the tick at `now` does about the status: on a terminal the line is
    /// redrawn every time, elsewhere a line is printed once a second.
    pub fn draw_status(&mut self, now: MediaTime, terminal: bool) -> (a: StatusAction)
        ensures
            a == (if terminal {
                StatusAction::Draw
            } else if old(self).due(now) {
                StatusAction::Print
            } else {
                StatusAction::Nothing
            }),
            final(self).last_status == (if old(self).due(now) {
                now
            } else {
                old(self).last_status
            }),
    {
        let a: u128 = now.to_nanos();
        let b: u128 = self.last_status.to_nanos();
        let since: u128 = if a >= b { a - b } else { 0 };
        if since >= STATUS_NANOS {
            self.last_status = now;
            if terminal {
                StatusAction::Draw
            } else {
                StatusAction::Print
            }
        } else if terminal {
            StatusAction::Draw
        } else {
            StatusAction::Nothing
        }
    }
}

/// `volume` in percent, to the nearest one.
pub fn volume_percent(volume: u32) -> (p: u32)
    ensures
        p == nearest_away(volume as int, VOLUME_POINT as int),
{
    let q: u32 = volume / VOLUME_POINT;
    if 2 * (volume % VOLUME_POINT) < VOLUME_POINT {
        q
    } else {
        q + 1
    }
}

/// The printed status line.
pub open spec fn status_text(
    position: Seq<char>,
    duration: Option<Seq<char>>,
    percent: nat,
    drift: Seq<char>,
    paused: bool,
) -> Seq<char> {
    "oxideplay: "@ + position + " / "@ + (match duration {
        Some(d) => d,
        None => "?"@,
    }) + "  vol "@ + right_aligned(decimal(percent), 3) + "%  "@ + drift + (if paused {
        "  [paused]"@
    } else {
        ""@
    })
}

/// The printed status line, from the position, the duration and the drift as they
/// are to be shown.
pub fn status_line(
    position: &str,
    duration: Option<&str>,
    volume: u32,
    drift: &str,
    paused: bool,
) -> (s: String)
    ensures
        s@ == status_text(
            position@,
            match duration {
                Some(d) => Some(d@),
                None => None,
            },
            nearest_away(volume as int, VOLUME_POINT as int) as nat,
            drift@,
            paused,
        ),
{
    let mut s = String::new();
    s.append("oxideplay: ");
    s.append(position);
    s.append(" / ");
    match duration {
        Some(d) => s.append(d),
        None => s.append("?"),
    }
    s.append("  vol ");
    let mut percent = String::new();
    push_decimal(&mut percent, volume_percent(volume) as u64);
    assert(percent@ == decimal(nearest_away(volume as int, VOLUME_POINT as int) as nat));
    push_right_aligned(&mut s, percent.as_str(), 3);
    s.append("%  ");
    s.append(drift);
    if paused {
        s.append("  [paused]");
    } else {
        s.append("");
    }
    s
}

// ───────────────────── laws ─────────────────────

/// The status is due a second after it last was, and not before.
pub proof fn law_the_status_is_due_each_second(c: StatusClock, now: MediaTime)
    ensures
        c.due(now) <==> now.nanos() >= c.last_status.nanos() + 1_000_000_000,
        !(StatusClock { last_status: now }).due(now),
{
}

/// A volume of so many points is so many percent, and one between two is the nearer.
pub proof fn law_percents_are_points(volume: u32)
    ensures
        ({
            let p = nearest_away(volume as int, VOLUME_POINT as int);
            -16_777_216 < 2 * (p * 16_777_216 - volume) <= 16_777_216
        }),
{
    law_rounding_is_to_the_nearest(volume as int, VOLUME_POINT as int);
}

/// The status line tells the position and then the duration, as they are given, and ends
/// with the mark of a pause exactly where the player is paused.
pub proof fn law_the_status_line_tells_where_playback_is(
    position: Seq<char>,
    duration: Option<Seq<char>>,
    percent: nat,
    drift: Seq<char>,
)
    ensures
        ({
            let length = match duration {
                Some(d) => d,
                None => "?"@,
            };
            let plays = status_text(position, duration, percent, drift, false);
            let stands = status_text(position, duration, percent, drift, true);
            let head = "oxideplay: "@ + position + " / "@ + length + "  vol "@ + right_aligned(
                decimal(percent),
                3,
            );
            &&& head.is_prefix_of(plays)
            &&& drift.is_suffix_of(plays)
            &&& stands == plays + "  [paused]"@
        }),
{
    reveal_strlit("");
    let length = match duration {
        Some(d) => d,
        None => "?"@,
    };
    let plays = status_text(position, duration, percent, drift, false);
    let head = "oxideplay: "@ + position + " / "@ + length + "  vol "@ + right_aligned(
        decimal(percent),
        3,
    );
    assert(head =~= plays.subrange(0, head.len() as int));
    assert(drift =~= plays.subrange(plays.len() - drift.len(), plays.len() as int));
    assert(status_text(position, duration, percent, drift, true) =~= plays + "  [paused]"@);
}

} // verus!
