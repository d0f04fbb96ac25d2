//! The composed output: any video engine beside any audio engine, and the ways in
//! which a decoded frame reaches the screen.

use vstd::prelude::*;

use crate::clock::MediaTime;
#[allow(unused_imports)]
use crate::clock::{monus, MAX_NANOS};

verus! {

/// The state of the composed output driver: which halves it has, and the wall
/// clock that stands in for a missing audio clock.
pub struct Composite {
    pub video: bool,
    pub audio: bool,
    /// The reading of a monotonic clock at which the wall clock last started;
    /// `None` while it stands.
    pub wall_start: Option<MediaTime>,
    /// What the wall clock had run before that.
    pub wall_accum: MediaTime,
}

impl Composite {
    /// What the wall clock reads when the monotonic clock reads `now`.
    pub open spec fn wall(self, now: int) -> int {
        match self.wall_start {
            Some(t) => self.wall_accum.nanos() + monus(now, t.nanos()),
            None => self.wall_accum.nanos(),
        }
    }

    /// A driver with the given halves. The wall clock starts at `now`.
    pub fn new(video: bool, audio: bool, now: MediaTime) -> (c: Self)
        ensures
            c.video == video,
            c.audio == audio,
            c.wall_start == Some(now),
            c.wall(now.nanos()) == 0,
    {
        Composite { video, audio, wall_start: Some(now), wall_accum: MediaTime::zero() }
    }

    /// Whether a time can hold what the wall clock reads.
    pub fn clock_fits(&self, now: MediaTime) -> (b: bool)
        ensures
            b == (self.wall(now.nanos()) <= MAX_NANOS),
    {
        let run: u128 = match self.wall_start {
            Some(start) => {
                let a: u128 = now.to_nanos();
                let b: u128 = start.to_nanos();
                if a >= b {
                    a - b
                } else {
                    0
                }
            },
            None => 0,
        };
        self.wall_accum.to_nanos() + run <= MAX_NANOS
    }

    /// The master clock: the audio engine's clock where there is one
    /// (`audio_clock`), the wall clock otherwise.
    pub fn master_clock_pos(&self, audio_clock: Option<MediaTime>, now: MediaTime) -> (t: MediaTime)
        requires
            self.audio == (audio_clock is Some),
            audio_clock is None ==> self.wall(now.nanos()) <= MAX_NANOS,
        ensures
            t.nanos() == (match audio_clock {
                Some(a) => a.nanos(),
                None => self.wall(now.nanos()),
            }),
    {
        match audio_clock {
            Some(a) => a,
            None => self.wall_clock(now),
        }
    }

    /// What the wall clock reads.
    fn wall_clock(&self, now: MediaTime) -> (t: MediaTime)
        requires
            self.wall(now.nanos()) <= MAX_NANOS,
        ensures
            t.nanos() == self.wall(now.nanos()),
    {
        match self.wall_start {
            Some(start) => {
                let a: u128 = now.to_nanos();
                let b: u128 = start.to_nanos();
                let run: u128 = if a >= b { a - b } else { 0 };
                MediaTime::from_nanos(self.wall_accum.to_nanos() + run)
            },
            None => self.wall_accum,
        }
    }

    /// Stops or restarts the wall clock. Stopping a clock that stands, or starting
    /// one that runs, changes nothing.
    pub fn set_paused(&mut self, paused: bool, now: MediaTime)
        requires
            old(self).wall(now.nanos()) <= MAX_NANOS,
        ensures
            final(self).video == old(self).video,
            final(self).audio == old(self).audio,
            final(self).wall(now.nanos()) == old(self).wall(now.nanos()),
            final(self).wall_start is None <==> paused,
            paused && old(self).wall_start is None ==> *final(self) == *old(self),
            !paused && old(self).wall_start is Some ==> *final(self) == *old(self),
            !paused && old(self).wall_start is None ==> final(self).wall_start == Some(now)
                && final(self).wall_accum == old(self).wall_accum,
    {
        if paused {
            if self.wall_start.is_some() {
                self.wall_accum = self.wall_clock(now);
                self.wall_start = None;
            }
        } else if self.wall_start.is_none() {
            self.wall_start = Some(now);
        }
    }
}

/// The samples that wait in the audio engine; none without one.
pub fn audio_queue_len_samples(engine: Option<u64>) -> (n: u64)
    ensures
        n == (match engine {
            Some(n) => n,
            None => 0,
        }),
{
    match engine {
        Some(n) => n,
        None => 0,
    }
}

/// The samples for which the audio engine has room; without an engine there is
/// always room.
pub fn audio_headroom_samples(engine: Option<u64>) -> (n: u64)
    ensures
        n == (match engine {
            Some(n) => n,
            None => u64::MAX,
        }),
{
    match engine {
        Some(n) => n,
        None => u64::MAX,
    }
}

/// Whether frames are shown without a deadline: as the video engine says, and
/// not without one.
pub fn video_drains_immediately(engine: Option<bool>) -> (b: bool)
    ensures
        b == (engine == Some(true)),
{
    match engine {
        Some(b) => b,
        None => false,
    }
}

// ───────────────────── frame leases ─────────────────────

/// How the frame behind a lease is stored.
#[derive(Clone, Copy, Debug, PartialEq, Eq, Structural)]
pub enum LeaseKind {
    /// A decoded picture in ordinary memory.
    CpuVideo,
    /// Anything else in ordinary memory.
    CpuOther,
    /// A picture in a decoder's arena.
    Arena,
    /// A picture in video memory, reachable through VDPAU or not.
    Hardware { vdpau: bool },
}

/// A place that frames are handed to.
#[derive(Clone, Copy, Debug, PartialEq, Eq, Structural)]
pub enum Surface {
    Driver,
    Engine,
    Winit,
}

/// What to do with a lease.
#[derive(Clone, Copy, Debug, PartialEq, Eq, Structural)]
pub enum LeaseStep {
    /// Nothing: there is nowhere to show it yet.
    Done,
    /// Draw straight from the arena; if that cannot be done, fall back.
    TryArena,
    /// Draw straight from video memory; if that cannot be done, fall back.
    TryVdpau,
    /// Show the frame as it is, without a copy.
    Present,
    /// Copy the frame to ordinary memory, and show that.
    Materialise,
    /// Refuse the lease.
    Reject,
}

/// What every surface does with a lease that it has no direct way to draw.
pub open spec fn fallback(lease: LeaseKind) -> LeaseStep {
    match lease {
        LeaseKind::CpuVideo => LeaseStep::Present,
        LeaseKind::CpuOther => LeaseStep::Reject,
        LeaseKind::Arena => LeaseStep::Materialise,
        LeaseKind::Hardware { vdpau: _ } => LeaseStep::Materialise,
    }
}

/// What the window does with a lease first.
pub open spec fn window_first(lease: LeaseKind, renderer: bool, bridge: bool) -> LeaseStep {
    match lease {
        LeaseKind::CpuVideo => LeaseStep::Present,
        LeaseKind::CpuOther => LeaseStep::Reject,
        LeaseKind::Arena => if renderer {
            LeaseStep::TryArena
        } else {
            LeaseStep::Done
        },
        LeaseKind::Hardware { vdpau } => if !vdpau || !bridge {
            LeaseStep::Materialise
        } else if renderer {
            LeaseStep::TryVdpau
        } else {
            LeaseStep::Done
        },
    }
}

/// What every surface does with a lease that it has no direct way to draw: a
/// picture in ordinary memory is borrowed, and only one that is not is copied.
pub fn fallback_step(lease: LeaseKind) -> (step: LeaseStep)
    ensures
        step == (match lease {
            LeaseKind::CpuVideo => LeaseStep::Present,
            LeaseKind::CpuOther => LeaseStep::Reject,
            LeaseKind::Arena => LeaseStep::Materialise,
            LeaseKind::Hardware { vdpau: _ } => LeaseStep::Materialise,
        }),
        step == fallback(lease),
{
    match lease {
        LeaseKind::CpuVideo => LeaseStep::Present,
        LeaseKind::CpuOther => LeaseStep::Reject,
        LeaseKind::Arena => LeaseStep::Materialise,
        LeaseKind::Hardware { vdpau: _ } => LeaseStep::Materialise,
    }
}

/// What the window does with a lease first. A build without the VDPAU bridge
/// draws nothing straight from video memory.
pub fn window_step(lease: LeaseKind, renderer: bool, bridge: bool) -> (step: LeaseStep)
    ensures
        step == (match lease {
            LeaseKind::CpuVideo => LeaseStep::Present,
            LeaseKind::CpuOther => LeaseStep::Reject,
            LeaseKind::Arena => if renderer {
                LeaseStep::TryArena
            } else {
                LeaseStep::Done
            },
            LeaseKind::Hardware { vdpau } => if !vdpau || !bridge {
                LeaseStep::Materialise
            } else if renderer {
                LeaseStep::TryVdpau
            } else {
                LeaseStep::Done
            },
        }),
        step == window_first(lease, renderer, bridge),
{
    match lease {
        LeaseKind::Arena => if renderer {
            LeaseStep::TryArena
        } else {
            LeaseStep::Done
        },
        LeaseKind::Hardware { vdpau } => if vdpau && bridge {
            if renderer {
                LeaseStep::TryVdpau
            } else {
                LeaseStep::Done
            }
        } else {
            fallback_step(lease)
        },
        _ => fallback_step(lease),
    }
}

/// What to do with a lease once its copy is at hand.
pub fn materialised_step(is_video: bool) -> (step: LeaseStep)
    ensures
        step == (if is_video {
            LeaseStep::Present
        } else {
            LeaseStep::Reject
        }),
{
    if is_video {
        LeaseStep::Present
    } else {
        LeaseStep::Reject
    }
}

/// How a surface calls itself.
pub open spec fn surface_name(surface: Surface) -> Seq<char> {
    match surface {
        Surface::Driver => "video presentation"@,
        Surface::Engine => "video engine"@,
        Surface::Winit => "winit video engine"@,
    }
}

/// What a surface says when it refuses a lease, or the copy that was made of one.
pub open spec fn refusal(surface: Surface, copied: bool) -> Seq<char> {
    "oxideplay: "@ + surface_name(surface) + (if copied {
        " materialised a non-video frame"@
    } else {
        " received a non-video frame lease"@
    })
}

/// What a surface says when it refuses a lease, or the copy that was made of one.
pub fn refusal_text(surface: Surface, copied: bool) -> (s: String)
    ensures
        s@ == refusal(surface, copied),
{
    let mut s = String::new();
    s.append("oxideplay: ");
    s.append(
        match surface {
            Surface::Driver => "video presentation",
            Surface::Engine => "video engine",
            Surface::Winit => "winit video engine",
        },
    );
    s.append(
        if copied {
            " materialised a non-video frame"
        } else {
            " received a non-video frame lease"
        },
    );
    s
}

// ───────────────────── laws ─────────────────────

/// A paused wall clock stands still, however long the pause.
pub proof fn law_a_paused_clock_stands(c: Composite, now: int, later: int)
    requires
        c.wall_start is None,
    ensures
        c.wall(now) == c.wall(later),
{
}

/// A running wall clock runs with the monotonic clock.
pub proof fn law_a_running_clock_runs(c: Composite, now: int, elapsed: int)
    requires
        c.wall_start matches Some(t) && t.nanos() <= now,
        elapsed >= 0,
    ensures
        c.wall(now + elapsed) == c.wall(now) + elapsed,
{
}

/// A pause does not count: a clock that is stopped at `stop` and restarted at
/// `restart` reads, from then on, what it would have read without the pause, less
/// the length of the pause.
pub proof fn law_a_pause_does_not_count(
    c: Composite,
    paused: Composite,
    resumed: Composite,
    stop: int,
    restart: MediaTime,
    later: int,
)
    requires
        c.wall_start matches Some(t) && t.nanos() <= stop,
        stop <= restart.nanos() <= later,
        paused.wall_start is None,
        paused.wall(stop) == c.wall(stop),
        resumed.wall_start == Some(restart),
        resumed.wall_accum == paused.wall_accum,
    ensures
        resumed.wall(later) == c.wall(later) - (restart.nanos() - stop),
{
}

/// The wall clock reads what it had run when it was started, and never runs back.
pub proof fn law_the_wall_clock_goes_on_from_where_it_stood(
    c: Composite,
    start: MediaTime,
    now: int,
    later: int,
)
    requires
        now <= later,
    ensures
        c.wall_start == Some(start) ==> c.wall(start.nanos()) == c.wall_accum.nanos(),
        c.wall_start is None ==> c.wall(now) == c.wall_accum.nanos(),
        c.wall(now) <= c.wall(later),
{
}

/// A picture in ordinary memory is shown without a copy, everywhere; what is no picture is
/// refused, everywhere; and the window copies only what it has no way to draw in place, which
/// is no picture of an arena and none that a bridge reaches.
pub proof fn law_only_what_cannot_be_drawn_is_copied(
    lease: LeaseKind,
    renderer: bool,
    bridge: bool,
)
    ensures
        fallback(lease) == LeaseStep::Present <==> lease is CpuVideo,
        window_first(lease, renderer, bridge) == LeaseStep::Present <==> lease is CpuVideo,
        fallback(lease) == LeaseStep::Reject <==> lease is CpuOther,
        window_first(lease, renderer, bridge) == LeaseStep::Reject <==> lease is CpuOther,
        fallback(lease) == LeaseStep::Materialise <==> lease is Arena || lease is Hardware,
        window_first(lease, renderer, bridge) == LeaseStep::TryArena <==> lease is Arena && renderer,
        window_first(lease, renderer, bridge) == LeaseStep::TryVdpau <==> lease == (
        LeaseKind::Hardware { vdpau: true }) && bridge && renderer,
        window_first(lease, renderer, bridge) == LeaseStep::Materialise ==> lease is Hardware,
        lease is Hardware && !bridge ==> window_first(lease, renderer, bridge)
            == LeaseStep::Materialise,
        lease == (LeaseKind::Hardware { vdpau: false }) ==> window_first(lease, renderer, bridge)
            == LeaseStep::Materialise,
        lease == (LeaseKind::Hardware { vdpau: true }) && bridge ==> window_first(
            lease,
            renderer,
            bridge,
        ) != LeaseStep::Materialise,
        renderer ==> window_first(lease, renderer, bridge) != LeaseStep::Done,
{
}

} // verus!
