//! What holds of the playback engine across calls.

use vstd::prelude::*;

#[allow(unused_imports)]
use crate::clock::{
    law_a_seek_asks_for_the_nearest_timestamp, law_anchor_is_immediate,
    law_only_far_instants_are_sought_at_the_end, law_samples_last_by_the_rate, nearest,
    position_nanos, sample_nanos, samples_at, MediaTime, TimeBase,
};
#[allow(unused_imports)]
use crate::engine::{
    grace_end, holds_back, stream_instant, trimmed, Delivery, EngineModel, Reaction, SeekReply,
    MIN_SLEEP_NANOS, TICK_NANOS, WAKE_EARLY_NANOS,
};
#[allow(unused_imports)]
use crate::media::{
    first_of_kind, AudioFrame, BarrierKind, EngineMsg, Frame, MediaCommand, MediaType,
    PlaybackState, PlayerEvent, SeekDir, StreamInfo, VideoFrame,
};

verus! {

/// A step of playback: a message that was taken, an event that was applied, the
/// executor's reply to a seek, its end of the channel going, or a look for a frame to
/// show. With it goes what the master clock read, and for the last whether the sink is
/// without deadlines.
pub enum Step<A, V> {
    Message(EngineMsg<A, V>, int),
    Event(PlayerEvent, int),
    Reply(SeekReply),
    Disconnected,
    Show(bool, int),
}

impl<V> EngineModel<V> {
    /// The engine after a step.
    pub open spec fn after_step<A>(self, step: Step<A, V>) -> Self {
        match step {
            Step::Message(msg, raw) => self.after_message(msg, raw),
            Step::Event(ev, raw) => self.after_event(ev, raw).0,
            Step::Reply(reply) => self.after_reply(reply),
            Step::Disconnected => EngineModel { done: true, ..self },
            Step::Show(drains, raw) => self.presented(drains, raw).0,
        }
    }
}

/// The engine after `steps`.
pub open spec fn after_steps<A, V>(m: EngineModel<V>, steps: Seq<Step<A, V>>) -> EngineModel<V>
    decreases steps.len(),
{
    if steps.len() == 0 {
        m
    } else {
        after_steps(m, steps.drop_last()).after_step(steps.last())
    }
}

// ───────────────────── seeking ─────────────────────

/// While a seek is in flight every frame is dropped, whatever it carries.
pub proof fn law_frames_are_dropped_during_a_seek<A, V>(
    m: EngineModel<V>,
    kind: MediaType,
    frame: Frame<A, V>,
    raw: int,
)
    requires
        m.pending is Some,
    ensures
        m.after_message(EngineMsg::Frame { kind, frame }, raw) == m,
        m.delivery(EngineMsg::Frame { kind, frame }) == Delivery::<A>::Nothing,
{
}

/// A barrier of any other generation than the one in flight changes nothing.
pub proof fn law_stale_barriers_are_ignored<A, V>(m: EngineModel<V>, barrier: BarrierKind, raw: int)
    requires
        barrier matches BarrierKind::SeekFlush { generation, .. } ==> m.pending != Some(generation),
        barrier matches BarrierKind::SeekRejected { generation } ==> m.pending != Some(generation),
    ensures
        m.after_message(EngineMsg::<A, V>::Barrier(barrier), raw) == m,
        m.delivery(EngineMsg::<A, V>::Barrier(barrier)) == Delivery::<A>::Nothing,
{
}

/// A seek empties the video queue and puts a new generation in flight: the
/// barrier of the seek before it is stale from then on.
pub proof fn law_a_seek_overtakes_the_one_before<V>(m: EngineModel<V>, target: int)
    requires
        m.seek_stream() is Some,
    ensures
        ({
            let next = m.seek_to(target).0;
            &&& next.queue.len() == 0
            &&& next.pending == Some(next.generation)
            &&& next.pending != Some(m.generation)
        }),
{
}

/// The barrier of the seek in flight ends it, and anchors the clock at the
/// landing: the position reads the landing at once, to within one sample, and
/// from then on advances by exactly what the master clock advances.
pub proof fn law_landing_anchors_the_clock<A, V>(
    m: EngineModel<V>,
    generation: u32,
    landed_pts: i64,
    time_base: TimeBase,
    raw: int,
    elapsed: int,
)
    requires
        m.pending == Some(generation),
        m.rate > 0,
        raw >= 0,
        elapsed >= 0,
        raw * m.rate / 1_000_000_000 <= u64::MAX,
    ensures
        ({
            let next = m.after_message(
                EngineMsg::<A, V>::Barrier(
                    BarrierKind::SeekFlush { generation, landed_pts, time_base },
                ),
                raw,
            );
            let landed = time_base.instant_nanos(landed_pts as int);
            &&& next.pending is None
            &&& next.anchored
            &&& landed <= next.position(raw)
            &&& (next.position(raw) - landed) * m.rate < 1_000_000_000 + m.rate
            &&& next.position(raw + elapsed) == next.position(raw) + elapsed
        }),
{
    let landed = time_base.instant_nanos(landed_pts as int);
    law_anchor_is_immediate(landed, raw, m.rate as int, elapsed);
    assert(raw * m.rate >= 0) by (nonlinear_arith)
        requires
            raw >= 0,
            m.rate >= 0,
    ;
    assert(samples_at(raw, m.rate as int) as u64 == samples_at(raw, m.rate as int));
}

/// A seek that the source rejects leaves playback where it was: the clock, the
/// audio and the queue are untouched, and no later seek request does anything.
pub proof fn law_a_rejected_seek_leaves_playback_alone<A, V>(
    m: EngineModel<V>,
    generation: u32,
    raw: int,
    ev: PlayerEvent,
    later: int,
)
    requires
        m.pending == Some(generation),
        ev is SeekRelative || ev is SeekAbsolute,
    ensures
        ({
            let next = m.after_message(
                EngineMsg::<A, V>::Barrier(BarrierKind::SeekRejected { generation }),
                raw,
            );
            &&& next.position(later) == m.position(later)
            &&& next.queue == m.queue
            &&& next.audio_end == m.audio_end
            &&& next.pending is None
            &&& next.after_event(ev, later) == (next, Reaction::Nothing)
        }),
{
}

/// A request to seek that the executor does not accept takes nothing over: the seek that
/// was in flight before it still is, and the clock runs on.
pub proof fn law_a_failed_request_leaves_the_seek_in_flight<V>(
    m: EngineModel<V>,
    target: int,
    reply: SeekReply,
    raw: int,
)
    requires
        m.seek_stream() is Some,
        reply != SeekReply::Accepted,
    ensures
        ({
            let next = m.seek_to(target).0.after_reply(reply);
            &&& next.pending == m.pending
            &&& next.position(raw) == m.position(raw)
            &&& next.audio_end == m.audio_end
        }),
{
}

/// With no seek in flight, a frame that comes after a request that the executor does not
/// accept is played.
pub proof fn law_frames_play_on_after_a_failed_request<A, V>(
    m: EngineModel<V>,
    target: int,
    reply: SeekReply,
    kind: MediaType,
    frame: Frame<A, V>,
    raw: int,
)
    requires
        m.seek_stream() is Some,
        m.pending is None,
        reply != SeekReply::Accepted,
    ensures
        ({
            let next = m.seek_to(target).0.after_reply(reply);
            let msg = EngineMsg::Frame { kind, frame };
            &&& next.pending is None
            &&& frame matches Frame::Audio(f) ==> next.delivery(msg) == Delivery::QueueAudio(f)
            &&& frame matches Frame::Video(f) ==> next.after_message(msg, raw).queue
                == next.queue.push(f)
        }),
{
}

/// Once seeking is known not to work, nothing makes it work again.
pub proof fn law_no_seeking_is_for_good<A, V>(
    m: EngineModel<V>,
    msg: EngineMsg<A, V>,
    ev: PlayerEvent,
    reply: SeekReply,
    raw: int,
)
    requires
        !m.seekable,
    ensures
        !m.after_reply(reply).seekable,
        !m.after_message(msg, raw).seekable,
        !m.after_event(ev, raw).0.seekable,
        !m.after_trim(raw).seekable,
        !m.after_front().seekable,
{
}

// ───────────────────── the clock ─────────────────────

/// The clock is anchored from the frames once: a frame never moves an anchor.
pub proof fn law_the_first_anchor_stays<A, V>(
    m: EngineModel<V>,
    kind: MediaType,
    frame: Frame<A, V>,
    raw: int,
    later: int,
)
    requires
        m.anchored,
    ensures
        ({
            let next = m.after_message(EngineMsg::Frame { kind, frame }, raw);
            &&& next.anchored
            &&& next.position(later) == m.position(later)
        }),
{
}

/// The frame that anchors the clock is due at once, however large its
/// timestamp is.
pub proof fn law_the_anchoring_frame_is_due<A, V>(
    m: EngineModel<V>,
    kind: MediaType,
    frame: VideoFrame<V>,
    raw: int,
)
    requires
        !m.anchored,
        m.pending is None,
        m.queue.len() == 0,
        stream_instant(m.video, frame.pts) is Some,
    ensures
        ({
            let next = m.after_message(EngineMsg::<A, V>::Frame { kind, frame: Frame::Video(frame) }, raw);
            &&& next.anchored
            &&& next.front_is_due(raw)
        }),
{
    let next = m.after_video(frame, raw);
    assert(next.queue[0] == frame);
}

// ───────────────────── video ─────────────────────

/// Skipping stale frames takes them off the front only: what is left is the end
/// of the queue, in the same order. A queue that held a frame still holds one.
/// Every skipped frame was stale, and the front frame that is left is not stale
/// unless it is the only one.
pub proof fn law_trimming_keeps_the_newest<V>(
    queue: Seq<VideoFrame<V>>,
    video: Option<StreamInfo>,
    now: int,
)
    ensures
        ({
            let left = trimmed(queue, video, now);
            let gone = queue.len() - left.len();
            &&& 0 <= gone
            &&& left == queue.skip(gone)
            &&& queue.len() > 0 ==> left.len() > 0
            &&& forall|i: int| 0 <= i < gone ==> grace_end(video, (#[trigger] queue[i]).pts) < now
            &&& left.len() > 1 ==> grace_end(video, left[0].pts) >= now
        }),
    decreases queue.len(),
{
    if queue.len() > 1 && grace_end(video, queue[0].pts) < now {
        let rest = queue.drop_first();
        law_trimming_keeps_the_newest(rest, video, now);
        let left = trimmed(queue, video, now);
        let gone = queue.len() - left.len();
        assert(rest.skip(gone - 1) =~= queue.skip(gone));
        assert forall|i: int| 0 <= i < gone implies grace_end(video, (#[trigger] queue[i]).pts)
            < now by {
            if i > 0 {
                assert(rest[i - 1] == queue[i]);
            }
        }
    } else {
        assert(queue.skip(0) =~= queue);
    }
}

/// The engine after `n` frames have been taken off the front.
pub open spec fn after_fronts<V>(m: EngineModel<V>, n: nat) -> EngineModel<V>
    decreases n,
{
    if n == 0 {
        m
    } else {
        after_fronts(m, (n - 1) as nat).after_front()
    }
}

/// Frames leave the queue in the order in which they arrived: the frame that
/// leaves after `n` others is the one that stood behind `n` others.
pub proof fn law_frames_leave_in_order<V>(m: EngineModel<V>, n: nat)
    requires
        n < m.queue.len(),
    ensures
        after_fronts(m, n).queue == m.queue.skip(n as int),
        after_fronts(m, n).queue[0] == m.queue[n as int],
{
    lemma_fronts(m, n);
}

proof fn lemma_fronts<V>(m: EngineModel<V>, n: nat)
    requires
        n <= m.queue.len(),
    ensures
        after_fronts(m, n).queue == m.queue.skip(n as int),
    decreases n,
{
    if n == 0 {
        assert(m.queue.skip(0) =~= m.queue);
    } else {
        lemma_fronts(m, (n - 1) as nat);
        assert(m.queue.skip(n - 1).drop_first() =~= m.queue.skip(n as int));
    }
}

/// The frames that were shown in the course of `steps`.
pub open spec fn shown_in<A, V>(m: EngineModel<V>, steps: Seq<Step<A, V>>) -> Seq<VideoFrame<V>>
    decreases steps.len(),
{
    if steps.len() == 0 {
        Seq::empty()
    } else {
        let before = shown_in(m, steps.drop_last());
        let then = after_steps(m, steps.drop_last());
        match steps.last() {
            Step::Show(drains, raw) => match then.presented(drains, raw).1 {
                Some(frame) => before.push(frame),
                None => before,
            },
            _ => before,
        }
    }
}

/// The video frames that arrived in the course of `steps`.
pub open spec fn arrived_in<A, V>(steps: Seq<Step<A, V>>) -> Seq<VideoFrame<V>>
    decreases steps.len(),
{
    if steps.len() == 0 {
        Seq::empty()
    } else {
        let before = arrived_in(steps.drop_last());
        match steps.last() {
            Step::Message(EngineMsg::Frame { kind: _, frame: Frame::Video(f) }, _) => before.push(f),
            _ => before,
        }
    }
}

/// Whether a step asks for no seek, and shows frames only as a sink without deadlines
/// is shown them.
pub open spec fn drains_without_seeking<A, V>(s: Step<A, V>) -> bool {
    match s {
        Step::Event(ev, _) => ev !is SeekRelative && ev !is SeekAbsolute,
        Step::Reply(_) => false,
        Step::Show(drains, _) => drains,
        _ => true,
    }
}

/// A sink without deadlines is shown every frame once and in the order in which the
/// frames arrived, whatever the clock read meanwhile: what it was shown and what still
/// waits are what arrived. When playback is over nothing waits, and all of it was shown.
pub proof fn law_a_draining_sink_is_shown_every_frame<A, V>(
    m: EngineModel<V>,
    steps: Seq<Step<A, V>>,
)
    requires
        m.pending is None,
        forall|i: int| 0 <= i < steps.len() ==> drains_without_seeking(#[trigger] steps[i]),
    ensures
        shown_in(m, steps) + after_steps(m, steps).queue == m.queue + arrived_in(steps),
        after_steps(m, steps).queue.len() == 0 ==> shown_in(m, steps) == m.queue + arrived_in(
            steps,
        ),
        after_steps(m, steps).pending is None,
    decreases steps.len(),
{
    if steps.len() > 0 {
        let rest = steps.drop_last();
        assert forall|i: int| 0 <= i < rest.len() implies drains_without_seeking(
            #[trigger] rest[i],
        ) by {
            assert(rest[i] == steps[i]);
        }
        assert(drains_without_seeking(steps[steps.len() - 1]));
        law_a_draining_sink_is_shown_every_frame(m, rest);
        let then = after_steps(m, rest);
        match steps.last() {
            Step::Show(drains, raw) => {
                if then.queue.len() > 0 {
                    assert(shown_in(m, rest).push(then.queue[0]) + then.queue.drop_first()
                        =~= shown_in(m, rest) + then.queue);
                }
            },
            Step::Message(EngineMsg::Frame { kind: _, frame: Frame::Video(f) }, raw) => {
                assert(shown_in(m, rest) + then.queue.push(f) =~= (shown_in(m, rest)
                    + then.queue).push(f));
                assert(m.queue + arrived_in(rest).push(f) =~= (m.queue + arrived_in(rest)).push(f));
            },
            _ => {},
        }
    } else {
        assert(shown_in(m, steps) + m.queue =~= m.queue + arrived_in(steps));
    }
    assert(shown_in(m, steps) + Seq::<VideoFrame<V>>::empty() =~= shown_in(m, steps));
    if after_steps(m, steps).queue.len() == 0 {
        assert(after_steps(m, steps).queue =~= Seq::<VideoFrame<V>>::empty());
    }
}

/// Every sleep is long enough not to spin and short enough to serve the user.
pub proof fn law_sleeps_are_bounded<V>(m: EngineModel<V>, raw: int)
    ensures
        MIN_SLEEP_NANOS <= m.sleep(raw) <= TICK_NANOS,
{
}

/// A sleep never overshoots the next frame's target, where the target is far
/// enough ahead to sleep at all.
pub proof fn law_sleeps_end_before_the_next_frame<V>(m: EngineModel<V>, raw: int)
    requires
        m.next_target() matches Some(t) && m.position(raw) + MIN_SLEEP_NANOS + WAKE_EARLY_NANOS
            <= t,
    ensures
        m.position(raw) + m.sleep(raw) + WAKE_EARLY_NANOS <= m.next_target()->0,
{
}

// ───────────────────── the user's controls ─────────────────────

/// Whether a step neither mutes nor unmutes.
pub open spec fn keeps_mute<A, V>(s: Step<A, V>) -> bool {
    s matches Step::Event(ev, _) ==> ev !is ToggleMute
}

/// Whether a step leaves the volume alone.
pub open spec fn keeps_volume<A, V>(s: Step<A, V>) -> bool {
    s matches Step::Event(ev, _) ==> ev !is VolumeDelta && ev !is SetVolume
}

/// Unmuting gives back the volume that was set, whatever happened while the player was
/// muted: until then the driver is to play at none, and then it is told the volume as it
/// is, which is the one from before unless the user has set another.
pub proof fn law_unmuting_restores_the_volume<A, V>(
    m: EngineModel<V>,
    steps: Seq<Step<A, V>>,
    raw: int,
    later: int,
)
    requires
        !m.muted,
        forall|i: int| 0 <= i < steps.len() ==> keeps_mute(#[trigger] steps[i]),
    ensures
        ({
            let muted = m.after_event(PlayerEvent::ToggleMute, raw).0;
            let then = after_steps(muted, steps);
            let (unmuted, r) = then.after_event(PlayerEvent::ToggleMute, later);
            &&& then.gain() == 0
            &&& unmuted == EngineModel { muted: false, ..then }
            &&& r == Reaction::SetVolume(then.volume)
            &&& (forall|i: int| 0 <= i < steps.len() ==> keeps_volume(#[trigger] steps[i]))
                ==> r == Reaction::SetVolume(m.volume)
        }),
    decreases steps.len(),
{
    if steps.len() > 0 {
        let rest = steps.drop_last();
        assert forall|i: int| 0 <= i < rest.len() implies keeps_mute(#[trigger] rest[i]) by {
            assert(rest[i] == steps[i]);
        }
        assert(keeps_mute(steps[steps.len() - 1]));
        law_unmuting_restores_the_volume(m, rest, raw, later);
        if forall|i: int| 0 <= i < steps.len() ==> keeps_volume(#[trigger] steps[i]) {
            assert forall|i: int| 0 <= i < rest.len() implies keeps_volume(#[trigger] rest[i]) by {
                assert(rest[i] == steps[i]);
            }
            assert(keeps_volume(steps[steps.len() - 1]));
        }
    }
}

/// Pausing and resuming changes nothing else.
pub proof fn law_resuming_undoes_pausing<V>(m: EngineModel<V>, raw: int)
    ensures
        ({
            let once = m.after_event(PlayerEvent::TogglePause, raw).0;
            once.after_event(PlayerEvent::TogglePause, raw) == (m, Reaction::SetPaused(m.paused))
        }),
{
}

/// The driver plays at the engine's volume, or at none while muted: whenever an
/// event changes that, the driver is told, and it is told nothing else.
pub proof fn law_the_driver_hears_the_gain<V>(m: EngineModel<V>, ev: PlayerEvent, raw: int)
    ensures
        ({
            let (next, r) = m.after_event(ev, raw);
            match r {
                Reaction::SetVolume(v) => v == next.gain(),
                _ => next.gain() == m.gain(),
            }
        }),
{
}

/// A nudge of the volume never leaves the range from silence to unity, and goes
/// the way it was asked to.
pub proof fn law_nudges_stay_in_range<V>(m: EngineModel<V>, d: i32, raw: int)
    requires
        m.well_formed(),
    ensures
        ({
            let next = m.after_event(PlayerEvent::VolumeDelta(d), raw).0;
            &&& next.volume <= crate::engine::VOLUME_UNITY
            &&& d >= 0 ==> next.volume >= m.volume
            &&& d <= 0 ==> next.volume <= m.volume
        }),
{
    assert(d * crate::engine::VOLUME_POINT == d * 16_777_216);
}

// ───────────────────── what a request to seek asks for ─────────────────────

/// The stream that is sought on: the video where there is one, else the audio.
pub open spec fn sought_on<V>(m: EngineModel<V>, s: StreamInfo) -> bool {
    m.video == Some(s) || m.video is None && m.audio == Some(s)
}

/// A seek to an instant asks the stream that is sought on for the timestamp of that
/// instant, to half a tick. It touches nothing but what waits: the queue is emptied and a
/// new generation, the one after the last, is in flight.
pub proof fn law_a_seek_asks_for_its_instant<V>(
    m: EngineModel<V>,
    s: StreamInfo,
    target: MediaTime,
    raw: int,
)
    requires
        m.seekable,
        sought_on(m, s),
        s.time_base.num > 0,
        s.time_base.den > 0,
        target.nanos() * s.time_base.den < (i64::MAX - 1) * (s.time_base.num * 1_000_000_000),
    ensures
        ({
            let (next, r) = m.after_event(PlayerEvent::SeekAbsolute(target), raw);
            let tick = s.time_base.num * 1_000_000_000;
            &&& r matches Reaction::Seek { stream, pts, time_base }
            &&& stream == s.index
            &&& time_base == s.time_base
            &&& -tick <= 2 * (pts * s.time_base.num * 1_000_000_000 - target.nanos()
                * s.time_base.den) <= tick
            &&& next.queue.len() == 0
            &&& next.pending == Some(next.generation)
            &&& next.overtaken == m.pending
            &&& (next.generation - m.generation - 1) % 0x1_0000_0000 == 0
            &&& next == EngineModel {
                queue: next.queue,
                pending: next.pending,
                overtaken: next.overtaken,
                generation: next.generation,
                ..m
            }
        }),
{
    let tb = s.time_base;
    let n = target.nanos();
    law_only_far_instants_are_sought_at_the_end(tb, n);
    let u = tb.num * 1_000_000_000;
    if tb.ticks_at(n) == i64::MAX {
        assert(2 * (n * tb.den) < (2 * i64::MAX - 1) * u) by (nonlinear_arith)
            requires
                n * tb.den < (i64::MAX - 1) * u,
                u > 0,
        ;
    }
    law_a_seek_asks_for_the_nearest_timestamp(tb, n);
}

/// A relative seek moves by the span asked for: it is the seek to the instant that lies
/// so far ahead of the position, or so far before it, and to the start only where there is
/// not so much before it.
pub proof fn law_a_relative_seek_moves_by_its_span<V>(
    m: EngineModel<V>,
    by: MediaTime,
    to: MediaTime,
    raw: int,
)
    ensures
        to.nanos() == m.position(raw) + by.nanos() ==> m.after_event(
            PlayerEvent::SeekRelative(by, SeekDir::Forward),
            raw,
        ) == m.after_event(PlayerEvent::SeekAbsolute(to), raw),
        to.nanos() + by.nanos() == m.position(raw) ==> m.after_event(
            PlayerEvent::SeekRelative(by, SeekDir::Back),
            raw,
        ) == m.after_event(PlayerEvent::SeekAbsolute(to), raw),
        to.nanos() == 0 && by.nanos() > m.position(raw) ==> m.after_event(
            PlayerEvent::SeekRelative(by, SeekDir::Back),
            raw,
        ) == m.after_event(PlayerEvent::SeekAbsolute(to), raw),
{
}

/// The timestamps that relative seeks ask for are those of the instants so far ahead and
/// so far back, to half a tick.
pub proof fn law_relative_seeks_ask_for_moved_timestamps<V>(
    m: EngineModel<V>,
    s: StreamInfo,
    by: MediaTime,
    raw: int,
)
    requires
        m.seekable,
        sought_on(m, s),
        s.time_base.num > 0,
        s.time_base.den > 0,
        m.position(raw) >= 0,
        (m.position(raw) + by.nanos()) * s.time_base.den < (i64::MAX - 1) * (s.time_base.num
            * 1_000_000_000),
    ensures
        ({
            let p = m.position(raw);
            let d = by.nanos();
            let tick = s.time_base.num * 1_000_000_000;
            let ahead = m.after_event(PlayerEvent::SeekRelative(by, SeekDir::Forward), raw).1;
            let back = m.after_event(PlayerEvent::SeekRelative(by, SeekDir::Back), raw).1;
            &&& ahead matches Reaction::Seek { stream, pts, time_base } && stream == s.index
                && time_base == s.time_base && -tick <= 2 * (pts * s.time_base.num * 1_000_000_000
                - (p + d) * s.time_base.den) <= tick
            &&& d <= p ==> (back matches Reaction::Seek { stream, pts, time_base } && stream
                == s.index && time_base == s.time_base && -tick <= 2 * (pts * s.time_base.num
                * 1_000_000_000 - (p - d) * s.time_base.den) <= tick)
            &&& d > p ==> (back matches Reaction::Seek { stream, pts, time_base } && stream
                == s.index && time_base == s.time_base && pts == 0)
        }),
{
    let tb = s.time_base;
    let p = m.position(raw);
    let d = by.nanos();
    let u = tb.num * 1_000_000_000;
    lemma_in_reach(tb, p + d, p + d);
    assert(d <= p ==> p - d <= p + d);
    if d <= p {
        lemma_in_reach(tb, p - d, p + d);
    } else {
        lemma_in_reach(tb, 0, p + d);
        let pts = tb.ticks_at(0);
        assert(0 * tb.den == 0);
        assert(pts == 0) by (nonlinear_arith)
            requires
                2 * (pts * tb.num * 1_000_000_000) <= u,
                pts >= 0,
                u == tb.num * 1_000_000_000,
                tb.num > 0,
        ;
    }
}

proof fn lemma_in_reach(tb: TimeBase, n: int, limit: int)
    requires
        tb.num > 0,
        tb.den > 0,
        0 <= n <= limit,
        limit * tb.den < (i64::MAX - 1) * (tb.num * 1_000_000_000),
    ensures
        0 <= tb.ticks_at(n) < i64::MAX,
        -(tb.num * 1_000_000_000) <= 2 * (tb.ticks_at(n) * tb.num * 1_000_000_000 - n * tb.den)
            <= tb.num * 1_000_000_000,
{
    law_only_far_instants_are_sought_at_the_end(tb, n);
    let u = tb.num * 1_000_000_000;
    assert(n * tb.den <= limit * tb.den) by (nonlinear_arith)
        requires
            n <= limit,
            tb.den > 0,
    ;
    if tb.ticks_at(n) == i64::MAX {
        assert(2 * (n * tb.den) < (2 * i64::MAX - 1) * u) by (nonlinear_arith)
            requires
                n * tb.den < (i64::MAX - 1) * u,
                u > 0,
        ;
    }
    law_a_seek_asks_for_the_nearest_timestamp(tb, n);
}

/// Where seeking does not work, or there is nothing to seek on, a seek asks for nothing;
/// the latter says that seeking does not work, and neither changes anything else.
pub proof fn law_a_seek_that_cannot_be_asks_for_nothing<V>(
    m: EngineModel<V>,
    ev: PlayerEvent,
    raw: int,
)
    requires
        ev is SeekRelative || ev is SeekAbsolute,
        !m.seekable || m.audio is None && m.video is None,
    ensures
        m.after_event(ev, raw) == (EngineModel { seekable: false, ..m }, Reaction::Nothing),
{
}

/// The executor's reply settles the request: one that is accepted stays in flight, and
/// only one that is said not to be supported ends seeking. Nothing else changes.
pub proof fn law_a_reply_settles_the_request<V>(m: EngineModel<V>, reply: SeekReply)
    ensures
        ({
            let next = m.after_reply(reply);
            &&& reply == SeekReply::Accepted ==> next.pending == m.pending
            &&& reply != SeekReply::Accepted ==> next.pending == m.overtaken
            &&& next.overtaken is None
            &&& reply != SeekReply::Unsupported ==> next.seekable == m.seekable
            &&& reply == SeekReply::Unsupported ==> !next.seekable
            &&& next == EngineModel {
                pending: next.pending,
                overtaken: next.overtaken,
                seekable: next.seekable,
                ..m
            }
        }),
{
}

/// A landing moves the clock and the end of the audio to where the source landed, and
/// ends the seek; what waits, and what the user has set, stays.
pub proof fn law_a_landing_moves_the_clock_alone<A, V>(
    m: EngineModel<V>,
    generation: u32,
    landed_pts: i64,
    time_base: TimeBase,
    raw: int,
)
    requires
        m.pending == Some(generation),
    ensures
        ({
            let next = m.after_message(
                EngineMsg::<A, V>::Barrier(
                    BarrierKind::SeekFlush { generation, landed_pts, time_base },
                ),
                raw,
            );
            &&& next.audio_end == time_base.instant_nanos(landed_pts as int)
            &&& next.origin == time_base.instant_nanos(landed_pts as int)
            &&& next.anchored
            &&& next.pending is None
            &&& next == EngineModel {
                audio_end: next.audio_end,
                origin: next.origin,
                baseline: next.baseline,
                anchored: true,
                pending: None,
                ..m
            }
        }),
{
}

// ───────────────────── what frames do ─────────────────────

/// A timestamp has an instant on a stream's timeline exactly where the stream's time base
/// gives it one.
pub proof fn law_instants_are_of_the_stream(stream: Option<StreamInfo>, ticks: Option<i64>, at: int)
    ensures
        stream_instant(stream, ticks) == Some(at) <==> {
            &&& stream is Some
            &&& ticks is Some
            &&& stream->0.time_base.reaches(ticks->0 as int)
            &&& at == stream->0.time_base.instant_nanos(ticks->0 as int)
        },
{
}

/// Playback starts with everything plain: full volume, not muted, not paused, nothing
/// waiting and no seek in flight. Where the stream that leads, the audio or else the video,
/// declares a start after zero the clock reads it from the first; elsewhere it reads zero,
/// and waits for a frame to set it.
pub proof fn law_playback_starts_at_the_declared_start<V>(
    streams: Seq<StreamInfo>,
    duration: Option<MediaTime>,
    lead: StreamInfo,
)
    requires
        first_of_kind(streams, MediaType::Audio) == Some(lead) || first_of_kind(
            streams,
            MediaType::Audio,
        ) is None && first_of_kind(streams, MediaType::Video) == Some(lead),
    ensures
        ({
            let m = EngineModel::<V>::initial(streams, duration);
            let tb = lead.time_base;
            let declared = lead.start_time is Some && lead.start_time->0 * tb.num * tb.den > 0;
            &&& m.audio == first_of_kind(streams, MediaType::Audio)
            &&& m.video == first_of_kind(streams, MediaType::Video)
            &&& m.duration == duration
            &&& m.volume == 100 * 16_777_216 && !m.muted && !m.paused
            &&& m.queue.len() == 0 && m.pending is None && m.overtaken is None
            &&& m.seekable && !m.done && m.track_due && m.pushed is None
            &&& m.anchored == declared
            &&& m.position(0) == (if declared {
                tb.instant_nanos(lead.start_time->0 as int)
            } else {
                0
            })
            &&& m.audio is Some ==> m.audio_end == m.position(0)
            &&& m.audio is None ==> m.audio_end == 0
            &&& m.rate == (match m.audio {
                Some(s) => match s.params.sample_rate {
                    Some(r) => r,
                    None => 48_000,
                },
                None => 48_000,
            })
        }),
{
    let m = EngineModel::<V>::initial(streams, duration);
    let tb = lead.time_base;
    law_samples_last_by_the_rate(
        0,
        if m.rate < 1 {
            1
        } else {
            m.rate as int
        },
    );
    assert(sample_nanos(0, m.rate as int) == 0) by {
        assert(0 * 1_000_000_000 == 0);
        assert(sample_nanos(0, m.rate as int) == nearest(
            0,
            if m.rate < 1 {
                1
            } else {
                m.rate as int
            },
        ));
        lemma_nothing_is_nothing(
            if m.rate < 1 {
                1
            } else {
                m.rate as int
            },
        );
    }
    if let Some(p) = lead.start_time {
        let x = p * tb.num;
        let den = tb.den as int;
        assert(den > 0 ==> (x * den > 0 <==> x > 0)) by (nonlinear_arith);
        assert(den < 0 ==> (x * den > 0 <==> x < 0)) by (nonlinear_arith);
        assert(den == 0 ==> x * den == 0) by (nonlinear_arith);
    }
}

proof fn lemma_nothing_is_nothing(d: int)
    requires
        d > 0,
    ensures
        nearest(0, d) == 0,
{
    vstd::arithmetic::div_mod::lemma_div_of0(d);
    vstd::arithmetic::div_mod::lemma_small_mod(0, d as nat);
}

/// The first frame that has an instant sets a clock that has none yet: the position reads
/// that instant at once, to within one sample, and keeps pace with the master clock from
/// then on.
pub proof fn law_the_first_timestamp_sets_the_clock<A, V>(
    m: EngineModel<V>,
    kind: MediaType,
    frame: Frame<A, V>,
    at: int,
    raw: int,
    elapsed: int,
)
    requires
        !m.anchored,
        m.pending is None,
        m.rate > 0,
        raw >= 0,
        elapsed >= 0,
        raw * m.rate / 1_000_000_000 <= u64::MAX,
        frame !is Other,
        frame matches Frame::Audio(f) ==> stream_instant(m.audio, f.pts) == Some(at),
        frame matches Frame::Video(f) ==> stream_instant(m.video, f.pts) == Some(at),
    ensures
        ({
            let next = m.after_message(EngineMsg::Frame { kind, frame }, raw);
            &&& next.anchored
            &&& at <= next.position(raw)
            &&& (next.position(raw) - at) * m.rate < 1_000_000_000 + m.rate
            &&& next.position(raw + elapsed) == next.position(raw) + elapsed
            &&& frame matches Frame::Audio(f) ==> -m.rate <= 2 * ((next.audio_end - at) * m.rate
                - f.samples * 1_000_000_000) <= m.rate
            &&& frame is Video && m.audio is Some ==> next.audio_end == at
            &&& frame is Video && m.audio is None ==> next.audio_end == m.audio_end
        }),
{
    law_anchor_is_immediate(at, raw, m.rate as int, elapsed);
    assert(raw * m.rate >= 0) by (nonlinear_arith)
        requires
            raw >= 0,
            m.rate >= 0,
    ;
    assert(samples_at(raw, m.rate as int) as u64 == samples_at(raw, m.rate as int));
    if let Frame::Audio(f) = frame {
        law_samples_last_by_the_rate(f.samples as int, m.rate as int);
    }
}

/// A frame without an instant leaves a clock that has none yet without one.
pub proof fn law_a_frame_without_an_instant_sets_no_clock<A, V>(
    m: EngineModel<V>,
    kind: MediaType,
    frame: Frame<A, V>,
    raw: int,
    later: int,
)
    requires
        frame matches Frame::Audio(f) ==> stream_instant(m.audio, f.pts) is None,
        frame matches Frame::Video(f) ==> stream_instant(m.video, f.pts) is None,
    ensures
        ({
            let next = m.after_message(EngineMsg::Frame { kind, frame }, raw);
            &&& next.anchored == m.anchored
            &&& next.position(later) == m.position(later)
        }),
{
}

/// Audio that comes while no seek is in flight goes to the driver as it is, and moves the
/// end of what the driver has by as long as it lasts. Unless it is what sets the clock
/// nothing else changes.
pub proof fn law_audio_extends_what_was_handed_on<A, V>(
    m: EngineModel<V>,
    kind: MediaType,
    frame: AudioFrame<A>,
    raw: int,
)
    requires
        m.pending is None,
    ensures
        ({
            let msg = EngineMsg::<A, V>::Frame { kind, frame: Frame::Audio(frame) };
            let next = m.after_message(msg, raw);
            let sets = !m.anchored && stream_instant(m.audio, frame.pts) is Some;
            &&& m.delivery(msg) == Delivery::QueueAudio(frame)
            &&& !sets && m.rate > 0 ==> -m.rate <= 2 * ((next.audio_end - m.audio_end) * m.rate
                - frame.samples * 1_000_000_000) <= m.rate
            &&& !sets && m.rate == 0 ==> next.audio_end == m.audio_end
            &&& !sets ==> next == EngineModel { audio_end: next.audio_end, ..m }
            &&& sets ==> next.anchored && next.origin == stream_instant(m.audio, frame.pts)->0
            &&& next == EngineModel {
                audio_end: next.audio_end,
                origin: next.origin,
                baseline: next.baseline,
                anchored: next.anchored,
                ..m
            }
        }),
{
    if m.rate > 0 {
        law_samples_last_by_the_rate(frame.samples as int, m.rate as int);
    }
}

/// Video that comes while no seek is in flight waits behind what waits already, and the
/// driver is handed nothing yet. Unless it is what sets the clock nothing else changes but
/// the last timestamp seen.
pub proof fn law_video_waits_in_line<A, V>(
    m: EngineModel<V>,
    kind: MediaType,
    frame: VideoFrame<V>,
    raw: int,
)
    requires
        m.pending is None,
    ensures
        ({
            let msg = EngineMsg::<A, V>::Frame { kind, frame: Frame::Video(frame) };
            let next = m.after_message(msg, raw);
            &&& m.delivery(msg) == Delivery::<A>::Nothing
            &&& next.queue == m.queue.push(frame)
            &&& frame.pts is Some ==> next.decoded_pts == frame.pts
            &&& frame.pts is None ==> next.decoded_pts == m.decoded_pts
            &&& m.anchored || stream_instant(m.video, frame.pts) is None ==> next == EngineModel {
                queue: next.queue,
                decoded_pts: next.decoded_pts,
                ..m
            }
            &&& !m.anchored ==> (stream_instant(m.video, frame.pts) matches Some(at) ==> next.anchored
                && next.origin == at)
            &&& next == EngineModel {
                queue: next.queue,
                decoded_pts: next.decoded_pts,
                origin: next.origin,
                baseline: next.baseline,
                audio_end: next.audio_end,
                anchored: next.anchored,
                ..m
            }
        }),
{
}

/// Nothing but the end of the stream makes the executor done, and nothing undoes it. What
/// is neither a frame that plays, a barrier nor the end changes nothing.
pub proof fn law_only_the_end_ends<A, V>(m: EngineModel<V>, msg: EngineMsg<A, V>, raw: int)
    ensures
        ({
            let next = m.after_message(msg, raw);
            &&& next.done == (m.done || msg is Finished)
            &&& msg is Finished ==> next == EngineModel { done: true, ..m }
            &&& msg is Started ==> next == m
            &&& msg matches EngineMsg::Frame { kind: _, frame: Frame::Other } ==> next == m
            &&& msg !is Frame && msg !is Barrier ==> m.delivery(msg) == Delivery::<A>::Nothing
        }),
{
}

// ───────────────────── what is shown ─────────────────────

/// When a frame is to be shown: at its instant, and one without an instant at once.
pub open spec fn shown_at<V>(m: EngineModel<V>, frame: VideoFrame<V>) -> int {
    match stream_instant(m.video, frame.pts) {
        Some(at) => at,
        None => 0,
    }
}

/// A look for a frame skips the frames at the front that are more than a tenth of a second
/// behind the clock, all but the last, and shows the next one if it is due within two
/// thousandths. Every other frame stays, in order.
pub proof fn law_frames_are_shown_on_time<V>(m: EngineModel<V>, raw: int)
    requires
        m.video is Some,
    ensures
        ({
            let now = m.position(raw);
            let (next, shown) = m.presented(false, raw);
            let skipped = m.queue.len() - next.queue.len() - (if shown is Some {
                1int
            } else {
                0
            });
            &&& 0 <= skipped <= m.queue.len()
            &&& m.queue.len() > 0 ==> skipped < m.queue.len()
            &&& forall|i: int|
                0 <= i < skipped ==> shown_at(m, #[trigger] m.queue[i]) + 100_000_000 < now
            &&& skipped + 1 < m.queue.len() ==> shown_at(m, m.queue[skipped]) + 100_000_000 >= now
            &&& shown is Some <==> m.queue.len() > 0 && shown_at(m, m.queue[skipped]) <= now
                + 2_000_000
            &&& shown matches Some(f) ==> {
                &&& f == m.queue[skipped]
                &&& next.queue == m.queue.skip(skipped + 1)
                &&& next.presented_pts == f.pts
            }
            &&& shown is None ==> next.queue == m.queue.skip(skipped) && next.presented_pts
                == m.presented_pts
            &&& next == EngineModel {
                queue: next.queue,
                presented_pts: next.presented_pts,
                ..m
            }
        }),
{
    let now = m.position(raw);
    law_trimming_keeps_the_newest(m.queue, m.video, now);
    let left = trimmed(m.queue, m.video, now);
    let gone = m.queue.len() - left.len();
    assert forall|i: int| 0 <= i < gone implies shown_at(m, #[trigger] m.queue[i]) + 100_000_000
        < now by {
        assert(grace_end(m.video, m.queue[i].pts) < now);
    }
    if left.len() > 0 {
        assert(left[0] == m.queue[gone]);
        assert(left.drop_first() =~= m.queue.skip(gone + 1));
    }
}

/// A sink without deadlines is handed the front frame, whatever the clock reads; any other
/// without a video stream to tell the time is handed it as one that is due at once.
pub proof fn law_untimed_frames_come_one_by_one<V>(m: EngineModel<V>, drains: bool, raw: int)
    requires
        drains || m.video is None && m.position(raw) >= 0,
    ensures
        ({
            let (next, shown) = m.presented(drains, raw);
            &&& shown is Some <==> m.queue.len() > 0
            &&& shown matches Some(f) ==> {
                &&& f == m.queue[0]
                &&& next.queue == m.queue.skip(1)
                &&& next.presented_pts == f.pts
                &&& next == EngineModel {
                    queue: next.queue,
                    presented_pts: next.presented_pts,
                    ..m
                }
            }
            &&& shown is None ==> next == m
        }),
{
    if m.queue.len() > 0 {
        assert(m.queue.drop_first() =~= m.queue.skip(1));
    }
    assert(EngineModel { queue: m.queue, ..m } =~= m);
}

/// A sleep is cut short only for a frame that is due right behind it; without one the
/// routine interval is slept.
pub proof fn law_sleeps_are_cut_short_for_frames_only<V>(m: EngineModel<V>, raw: int)
    ensures
        500_000 <= m.sleep(raw) <= 16_000_000,
        m.sleep(raw) < 16_000_000 ==> m.queue.len() > 0 && (stream_instant(
            m.video,
            m.queue[0].pts,
        ) matches Some(at) && at <= m.position(raw) + m.sleep(raw) + 1_000_000),
        m.sleep(raw) > 500_000 && m.queue.len() > 0 ==> (stream_instant(
            m.video,
            m.queue[0].pts,
        ) matches Some(at) ==> m.position(raw) + m.sleep(raw) + 1_000_000 <= at),
{
}

// ───────────────────── the end, and holding back ─────────────────────

/// With an audio stream playback is over only when no sample waits in the device, whatever
/// other streams there are, and only when some audio was handed on.
pub proof fn law_the_audio_plays_to_its_end<V>(m: EngineModel<V>, queued: u64)
    requires
        m.audio is Some,
        m.audio_drained(queued) || m.over(queued),
    ensures
        queued == 0,
        m.audio_end != 0,
{
}

/// Playback is never over while the executor has more to send, a frame waits or the player
/// is paused; and once nothing of that holds it is, however many streams there are.
pub proof fn law_playback_ends_when_nothing_is_left<V>(m: EngineModel<V>, queued: u64)
    requires
        m.audio_end >= 0,
    ensures
        m.over(queued) ==> m.done && !m.paused && m.queue.len() == 0,
        m.audio is None ==> m.audio_drained(queued),
        m.done && !m.paused && m.queue.len() == 0 && m.audio is None ==> m.over(queued),
        m.done && !m.paused && m.queue.len() == 0 && queued == 0 && m.audio_end != 0 ==> m.over(
            queued,
        ),
        m.over(queued) ==> m.over(0),
{
}

/// A tick takes at most thirty-two messages, none while two hundred and forty frames wait,
/// and none while the audio device has room for less than a quarter of a second; else it
/// takes the next.
pub proof fn law_messages_are_taken_while_there_is_room<V>(
    m: EngineModel<V>,
    taken: int,
    headroom: int,
)
    requires
        headroom >= 0,
    ensures
        m.takes_more(taken, headroom) ==> taken < 32 && m.queue.len() < 240 && 4 * headroom + 3
            >= m.rate,
        taken < 32 && m.queue.len() < 240 && 4 * headroom >= m.rate ==> m.takes_more(
            taken,
            headroom,
        ),
{
}

/// Either side holds both back: too little room for audio, or too many frames. More room
/// and fewer frames never hold back where less room and more frames did not.
pub proof fn law_either_side_holds_back(
    headroom: int,
    more: int,
    floor: int,
    waiting: int,
    fewer: int,
    cap: int,
)
    requires
        headroom <= more,
        fewer <= waiting,
    ensures
        headroom < floor ==> holds_back(headroom, floor, waiting, cap),
        cap <= waiting ==> holds_back(headroom, floor, waiting, cap),
        !holds_back(floor, floor, cap - 1, cap),
        !holds_back(headroom, floor, waiting, cap) ==> !holds_back(more, floor, fewer, cap),
{
}

// ───────────────────── what the user's actions do ─────────────────────

/// A nudge that stays in range moves the volume by exactly the points asked for; one that
/// would leave it stops at the end that it would pass. The driver hears the new volume,
/// unless the player is muted, and nothing else changes.
pub proof fn law_nudges_move_by_their_points<V>(m: EngineModel<V>, d: i32, raw: int)
    requires
        m.volume <= 100 * 16_777_216,
    ensures
        ({
            let (next, r) = m.after_event(PlayerEvent::VolumeDelta(d), raw);
            let to = m.volume + d * 16_777_216;
            &&& 0 <= to <= 100 * 16_777_216 ==> next.volume == to
            &&& to < 0 ==> next.volume == 0
            &&& to > 100 * 16_777_216 ==> next.volume == 100 * 16_777_216
            &&& next == EngineModel { volume: next.volume, ..m }
            &&& !m.muted ==> r == Reaction::SetVolume(next.volume)
            &&& m.muted ==> r == Reaction::Nothing
        }),
{
    assert(d * crate::engine::VOLUME_POINT == d * 16_777_216);
}

/// Two nudges that stay in range move the volume by the sum of their points, and a nudge
/// back undoes a nudge.
pub proof fn law_nudges_add_up<V>(m: EngineModel<V>, a: i32, b: i32, raw: int)
    requires
        0 <= m.volume + a * 16_777_216 <= 100 * 16_777_216,
        0 <= m.volume + (a + b) * 16_777_216 <= 100 * 16_777_216,
        m.volume <= 100 * 16_777_216,
    ensures
        ({
            let once = m.after_event(PlayerEvent::VolumeDelta(a), raw).0;
            let twice = once.after_event(PlayerEvent::VolumeDelta(b), raw).0;
            &&& twice.volume == m.volume + (a + b) * 16_777_216
            &&& a + b == 0 ==> twice == m
        }),
{
    law_nudges_move_by_their_points(m, a, raw);
    let once = m.after_event(PlayerEvent::VolumeDelta(a), raw).0;
    law_nudges_move_by_their_points(once, b, raw);
    assert((a + b) * 16_777_216 == a * 16_777_216 + b * 16_777_216);
}

/// Setting the volume sets it, to full volume at most; the driver hears it, unless the
/// player is muted, and nothing else changes.
pub proof fn law_a_set_volume_is_the_volume<V>(m: EngineModel<V>, v: u32, raw: int)
    ensures
        ({
            let (next, r) = m.after_event(PlayerEvent::SetVolume(v), raw);
            &&& v <= 100 * 16_777_216 ==> next.volume == v
            &&& v > 100 * 16_777_216 ==> next.volume == 100 * 16_777_216
            &&& next == EngineModel { volume: next.volume, ..m }
            &&& !m.muted ==> r == Reaction::SetVolume(next.volume)
            &&& m.muted ==> r == Reaction::Nothing
        }),
{
}

/// Muting and unmuting switch over, and twice is back: the driver is told none while muted
/// and the volume otherwise, which itself is kept.
pub proof fn law_muting_switches_over<V>(m: EngineModel<V>, raw: int)
    ensures
        ({
            let (once, r) = m.after_event(PlayerEvent::ToggleMute, raw);
            &&& once.muted != m.muted
            &&& once == EngineModel { muted: once.muted, ..m }
            &&& once.muted ==> r == Reaction::SetVolume(0) && once.gain() == 0
            &&& !once.muted ==> r == Reaction::SetVolume(m.volume) && once.gain() == m.volume
            &&& once.after_event(PlayerEvent::ToggleMute, raw).0 == m
        }),
{
}

/// Pausing switches over, and the driver is told which it is; nothing else changes.
pub proof fn law_pausing_switches_over<V>(m: EngineModel<V>, raw: int)
    ensures
        ({
            let (once, r) = m.after_event(PlayerEvent::TogglePause, raw);
            &&& once.paused != m.paused
            &&& once == EngineModel { paused: once.paused, ..m }
            &&& r == Reaction::SetPaused(once.paused)
        }),
{
}

/// The player is left when the user asks for it, and for nothing else.
pub proof fn law_only_quitting_quits<V>(m: EngineModel<V>, ev: PlayerEvent, raw: int)
    ensures
        m.after_event(ev, raw).1 == Reaction::Quit <==> ev is Quit,
        ev is Quit ==> m.after_event(ev, raw).0 == m,
{
}

/// The system's commands do what they say: to play leaves the player playing, to pause
/// leaves it paused, whatever it did before, and to toggle switches over. A seek is one to
/// the instant given, to the start for one before it; there is no playlist to move in.
pub proof fn law_commands_do_what_they_say<V>(m: EngineModel<V>, cmd: MediaCommand, raw: int)
    requires
        cmd matches MediaCommand::Seek(n) ==> n <= 18_446_744_073_709_551_615_999_999_999,
    ensures
        ({
            let ev = m.command_event(cmd);
            let next = match ev {
                Some(e) => m.after_event(e, raw).0,
                None => m,
            };
            &&& cmd is Play ==> next == EngineModel { paused: false, ..m }
            &&& cmd is Pause ==> next == EngineModel { paused: true, ..m }
            &&& cmd is TogglePlayPause ==> next == EngineModel { paused: !m.paused, ..m }
            &&& cmd is Next || cmd is Previous ==> ev is None
            &&& cmd matches MediaCommand::Seek(n) ==> {
                &&& ev is Some
                &&& ev->0 matches PlayerEvent::SeekAbsolute(t) && (n >= 0 ==> t.nanos() == n) && (n
                    < 0 ==> t.nanos() == 0)
            }
        }),
{
}

/// The system is shown what the player does: after telling it, it shows the state as it
/// is, and telling it again tells nothing. The track is described once.
pub proof fn law_the_system_is_shown_the_state<V>(m: EngineModel<V>)
    ensures
        ({
            let state = if m.paused {
                PlaybackState::Paused
            } else {
                PlaybackState::Playing
            };
            let (told, a) = m.synced();
            let (described, b) = m.announced();
            &&& told.pushed == Some(state)
            &&& a is None <==> m.pushed == Some(state)
            &&& a is Some ==> a == Some(state)
            &&& told.synced() == (told, None::<PlaybackState>)
            &&& told == EngineModel { pushed: told.pushed, ..m }
            &&& b is Some <==> m.track_due
            &&& b is Some ==> b == Some(state) && described.pushed == b
            &&& !described.track_due
            &&& described.announced() == (described, None::<PlaybackState>)
            &&& described == EngineModel {
                pushed: described.pushed,
                track_due: false,
                ..m
            }
            &&& !m.track_due ==> described == m
        }),
{
}

// ───────────────────── what can be taken ─────────────────────

/// An event can be applied wherever the instant that it leads to can be held: only a seek
/// ahead can lead beyond, and only from a position that can be held itself.
pub proof fn law_events_are_taken_while_times_hold<V>(m: EngineModel<V>, ev: PlayerEvent, raw: int)
    requires
        m.position(raw) >= 0,
    ensures
        ev !is SeekRelative || !m.seekable ==> m.takes_event(ev, raw),
        m.position(raw) <= 18_446_744_073_709_551_615_999_999_999 ==> (ev matches
            PlayerEvent::SeekRelative(by, dir) ==> (dir is Back || m.position(raw) + by.nanos()
            <= 18_446_744_073_709_551_615_999_999_999) ==> m.takes_event(ev, raw)),
{
}

/// A message can be taken wherever the instants in it can be held; all but frames that play
/// and the barrier of the seek in flight always can.
pub proof fn law_messages_are_taken_while_times_hold<A, V>(
    m: EngineModel<V>,
    msg: EngineMsg<A, V>,
    raw: int,
)
    ensures
        msg is Started || msg is Finished ==> m.accepts(msg, raw),
        m.pending is Some && msg is Frame ==> m.accepts(msg, raw),
        msg matches EngineMsg::Frame { kind: _, frame: Frame::Other } ==> m.accepts(msg, raw),
        msg matches EngineMsg::Frame { kind: _, frame: Frame::Video(f) } ==> (!(m.video matches Some(
            s,
        ) && f.pts matches Some(p) && s.time_base.beyond(p as int)) ==> m.accepts(msg, raw)),
        msg matches EngineMsg::Frame { kind: _, frame: Frame::Audio(f) } ==> (m.anchored
            && m.audio_end + sample_nanos(f.samples as int, m.rate as int)
            <= 18_446_744_073_709_551_615_999_999_999 && m.audio_end
            <= 18_446_744_073_709_551_615_999_999_999 ==> m.accepts(msg, raw)),
        msg matches EngineMsg::Barrier(BarrierKind::SeekRejected { .. }) ==> m.accepts(msg, raw),
        msg matches EngineMsg::Barrier(
            BarrierKind::SeekFlush { generation, landed_pts, time_base },
        ) ==> (m.pending != Some(generation) || time_base.reaches(landed_pts as int) ==> m.accepts(
            msg,
            raw,
        )),
{
}

} // verus!
