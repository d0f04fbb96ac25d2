//! The order of a tick of the playback loop.

use vstd::prelude::*;

verus! {

/// A part of a tick.
#[derive(Clone, Copy, Debug, PartialEq, Eq, Structural)]
pub enum Phase {
    /// Describe the track to the system, the first time.
    Announce,
    /// Show the overlay the player's state, before its clicks are read.
    Overlay,
    /// Tell the system the position.
    Position,
    /// Tell the system whether the player plays.
    Playback,
    /// Collect the user's actions: from the driver, the terminal and the system.
    Gather,
    /// Apply them, up to one that quits.
    Apply,
    /// Take messages from the executor.
    Pump,
    /// Show what is due.
    Present,
    /// Print or redraw the status.
    Status,
    /// See whether playback is over.
    Exit,
    /// Wait for the next frame.
    Sleep,
    /// The loop is over.
    Done,
}

/// What the next part of a tick depends on.
#[derive(Clone, Copy, Debug, PartialEq, Eq, Structural)]
pub struct TickFacts {
    /// An action has quit the player.
    pub quit: bool,
    pub paused: bool,
    /// Playback is over.
    pub finished: bool,
}

/// The part of a tick that follows `phase`. A paused player takes no messages and
/// shows nothing: the channel fills, and the executor waits.
pub open spec fn following(phase: Phase, facts: TickFacts) -> Phase {
    match phase {
        Phase::Announce => Phase::Overlay,
        Phase::Overlay => Phase::Position,
        Phase::Position => Phase::Playback,
        Phase::Playback => Phase::Gather,
        Phase::Gather => Phase::Apply,
        Phase::Apply => if facts.quit {
            Phase::Done
        } else if facts.paused {
            Phase::Status
        } else {
            Phase::Pump
        },
        Phase::Pump => Phase::Present,
        Phase::Present => Phase::Status,
        Phase::Status => Phase::Exit,
        Phase::Exit => if facts.finished {
            Phase::Done
        } else {
            Phase::Sleep
        },
        Phase::Sleep => Phase::Announce,
        Phase::Done => Phase::Done,
    }
}

impl Phase {
    /// The part of a tick that follows this one.
    pub fn next(self, facts: TickFacts) -> (p: Phase)
        ensures
            p == following(self, facts),
    {
        match self {
            Phase::Announce => Phase::Overlay,
            Phase::Overlay => Phase::Position,
            Phase::Position => Phase::Playback,
            Phase::Playback => Phase::Gather,
            Phase::Gather => Phase::Apply,
            Phase::Apply => if facts.quit {
                Phase::Done
            } else if facts.paused {
                Phase::Status
            } else {
                Phase::Pump
            },
            Phase::Pump => Phase::Present,
            Phase::Present => Phase::Status,
            Phase::Status => Phase::Exit,
            Phase::Exit => if facts.finished {
                Phase::Done
            } else {
                Phase::Sleep
            },
            Phase::Sleep => Phase::Announce,
            Phase::Done => Phase::Done,
        }
    }
}

/// The phase that a tick is in after `n` parts, from `Announce` on, when the facts
/// stay as they are.
pub open spec fn phase_after(facts: TickFacts, n: nat) -> Phase
    decreases n,
{
    if n == 0 {
        Phase::Announce
    } else {
        following(phase_after(facts, (n - 1) as nat), facts)
    }
}

// ───────────────────── laws ─────────────────────

/// A paused player never takes a message and never shows a frame, however long it
/// stays paused.
pub proof fn law_a_paused_tick_holds_everything(facts: TickFacts, n: nat)
    requires
        facts.paused,
    ensures
        phase_after(facts, n) != Phase::Pump,
        phase_after(facts, n) != Phase::Present,
    decreases n,
{
    if n > 0 {
        law_a_paused_tick_holds_everything(facts, (n - 1) as nat);
    }
}

/// Once the user has quit, no part of the tick follows.
pub proof fn law_quitting_ends_the_loop(facts: TickFacts, n: nat)
    requires
        facts.quit,
        n >= 6,
    ensures
        phase_after(facts, n) == Phase::Done,
    decreases n,
{
    if n == 6 {
        reveal_with_fuel(phase_after, 7);
    } else {
        law_quitting_ends_the_loop(facts, (n - 1) as nat);
    }
}

/// The loop ends only where the user has quit or playback is over.
pub proof fn law_nothing_else_ends_the_loop(phase: Phase, facts: TickFacts)
    requires
        phase != Phase::Done,
        following(phase, facts) == Phase::Done,
    ensures
        phase == Phase::Apply && facts.quit || phase == Phase::Exit && facts.finished,
{
}

/// A tick that neither quits nor finishes comes round again: the loop goes on, and
/// every part that is not held back by a pause is passed once.
pub proof fn law_a_tick_comes_round(facts: TickFacts)
    requires
        !facts.quit,
        !facts.finished,
    ensures
        !facts.paused ==> phase_after(facts, 11) == Phase::Announce,
        facts.paused ==> phase_after(facts, 9) == Phase::Announce,
{
    reveal_with_fuel(phase_after, 12);
}

/// Where a part stands in a tick.
pub open spec fn place_in_tick(phase: Phase) -> int {
    match phase {
        Phase::Announce => 0,
        Phase::Overlay => 1,
        Phase::Position => 2,
        Phase::Playback => 3,
        Phase::Gather => 4,
        Phase::Apply => 5,
        Phase::Pump => 6,
        Phase::Present => 7,
        Phase::Status => 8,
        Phase::Exit => 9,
        Phase::Sleep => 10,
        Phase::Done => 11,
    }
}

/// A tick goes through its parts in order: actions are gathered before they are applied,
/// then messages are taken, then frames are shown, and the end is looked for last. A part
/// is left out only where the player is paused, which leaves out taking and showing, or
/// where the loop ends.
pub proof fn law_a_tick_keeps_its_order(phase: Phase, facts: TickFacts)
    ensures
        ({
            let next = following(phase, facts);
            &&& phase == Phase::Sleep ==> place_in_tick(next) == 0
            &&& phase == Phase::Done ==> next == Phase::Done
            &&& phase != Phase::Sleep && phase != Phase::Done ==> place_in_tick(next)
                > place_in_tick(phase)
            &&& phase != Phase::Sleep && phase != Phase::Done && phase != Phase::Apply && phase
                != Phase::Exit ==> place_in_tick(next) == place_in_tick(phase) + 1
            &&& phase == Phase::Apply && !facts.quit ==> place_in_tick(next) == (if facts.paused {
                8int
            } else {
                6int
            })
            &&& phase == Phase::Apply && facts.quit ==> next == Phase::Done
            &&& phase == Phase::Exit && !facts.finished ==> next == Phase::Sleep
            &&& phase == Phase::Exit && facts.finished ==> next == Phase::Done
        }),
{
}

} // verus!
