//! The playback engine: A/V sync, seeking, back-pressure and the user's
//! controls.
//!
//! The engine owns no device. Each method takes what a device or the executor
//! just reported (the driver's master clock, a message, a user event) and gives
//! back what is to be done about it. The caller performs that, and calls again.
//!
//! Pausing is back-pressure: a paused player takes no messages, so the frame
//! channel fills and the decoders wait.
//!
//! Seeking bumps a generation counter and discards every frame until the barrier
//! of that generation arrives. The clock is then anchored at the instant on which
//! the source says that it landed.

use std::collections::VecDeque;

use vstd::prelude::*;

use crate::clock::{baseline_samples, position_from, sample_span, MediaTime, Side, TimeBase};
use crate::media::{
    find_stream, AudioFrame, BarrierKind, EngineMsg, Frame, MediaCommand, MediaType, OverlayState,
    PlaybackState, PlayerEvent, SeekDir, StreamInfo, VideoFrame,
};
#[allow(unused_imports)]
use crate::clock::{position_nanos, sample_nanos, samples_at, monus, MAX_NANOS};
#[allow(unused_imports)]
use crate::media::first_of_kind;

verus! {

/// Decoded video frames beyond which the player stops taking messages.
pub const VIDEO_QUEUE_SOFT_CAP: usize = 240;

/// Messages that one tick takes at most.
pub const PER_TICK_BUDGET: usize = 32;

/// One percentage point of volume.
pub const VOLUME_POINT: u32 = 16_777_216;

/// Unity gain: a hundred percentage points.
pub const VOLUME_UNITY: u32 = 1_677_721_600;

/// How far behind the clock a video frame may fall before it is skipped.
pub const MAX_BEHIND_NANOS: u128 = 100_000_000;

/// How far ahead of the clock a video frame may be presented.
pub const PRESENT_EPSILON_NANOS: u128 = 2_000_000;

/// The routine tick interval.
pub const TICK_NANOS: u128 = 16_000_000;

/// How far before a frame's target the player wakes.
pub const WAKE_EARLY_NANOS: u128 = 1_000_000;

/// The shortest sleep.
pub const MIN_SLEEP_NANOS: u128 = 500_000;

/// The sample rate of a source that declares none.
pub const DEFAULT_AUDIO_RATE: u32 = 48_000;

/// What the engine's state is, apart from how it is stored. Times are in
/// nanoseconds.
#[verifier::ext_equal]
pub struct EngineModel<V> {
    pub audio: Option<StreamInfo>,
    pub video: Option<StreamInfo>,
    pub rate: u32,
    /// Decoded video frames not presented yet, oldest first.
    pub queue: Seq<VideoFrame<V>>,
    /// The clock's anchor.
    pub origin: int,
    /// The master clock when the anchor was taken, in samples.
    pub baseline: u64,
    /// Where on the timeline the audio handed to the driver ends.
    pub audio_end: int,
    pub anchored: bool,
    pub decoded_pts: Option<i64>,
    pub presented_pts: Option<i64>,
    pub paused: bool,
    pub volume: u32,
    pub muted: bool,
    /// The generation of the seek in flight.
    pub pending: Option<u32>,
    /// The one that was in flight before it, until the executor has replied to it.
    pub overtaken: Option<u32>,
    /// The generation of the last seek.
    pub generation: u32,
    pub seekable: bool,
    /// The executor has nothing more to send.
    pub done: bool,
    pub duration: Option<MediaTime>,
    pub pushed: Option<PlaybackState>,
    pub track_due: bool,
}

/// The playback engine. `V` is the handle of a decoded video frame.
pub struct PlayerEngine<V> {
    pub audio_stream: Option<StreamInfo>,
    pub video_stream: Option<StreamInfo>,
    pub audio_rate: u32,
    pub video_queue: VecDeque<VideoFrame<V>>,
    pub clock_origin: MediaTime,
    pub clock_baseline_samples: u64,
    pub last_audio_end: MediaTime,
    pub initial_clock_anchored: bool,
    pub last_video_pts: Option<i64>,
    pub last_video_presented_pts: Option<i64>,
    pub paused: bool,
    pub volume: u32,
    pub muted: bool,
    pub seek_pending_gen: Option<u32>,
    /// The seek that was in flight when another was asked for, until the executor has
    /// replied to that.
    pub seek_overtaken_gen: Option<u32>,
    pub seek_gen_counter: u32,
    pub seek_supported: bool,
    pub executor_done: bool,
    pub duration: Option<MediaTime>,
    pub last_pushed_state: Option<PlaybackState>,
    pub media_controls_pending_track: bool,
}

/// What the caller is to do about a user event.
#[derive(Clone, Copy, Debug, PartialEq, Eq, Structural)]
pub enum Reaction {
    /// Leave the playback loop.
    Quit,
    /// Nothing.
    Nothing,
    /// Pause or resume the driver.
    SetPaused(bool),
    /// Set the driver's volume.
    SetVolume(u32),
    /// Ask the executor to seek.
    Seek { stream: u32, pts: i64, time_base: TimeBase },
}

/// What the executor said to a request to seek.
#[derive(Clone, Copy, Debug, PartialEq, Eq, Structural)]
pub enum SeekReply {
    Accepted,
    Unsupported,
    Failed,
}

/// What the caller is to do about a message.
#[derive(Debug)]
pub enum Delivery<A> {
    /// Nothing.
    Nothing,
    /// Queue the frame to the audio device.
    QueueAudio(AudioFrame<A>),
    /// Tell the user that the stream cannot seek.
    SeekUnsupported,
}

/// Where the streams stand on the timeline, for the status line.
#[derive(Debug)]
pub struct PlayerTimings {
    pub audio: Option<MediaTime>,
    pub video_decoded: Option<MediaTime>,
    pub video_presented: Option<MediaTime>,
    pub video_queue_len: usize,
}

// ───────────────────── the model ─────────────────────

/// The stream on whose declared start playback starts: the audio stream, which
/// is the master clock, and without one the video stream.
pub open spec fn start_stream(
    audio: Option<StreamInfo>,
    video: Option<StreamInfo>,
) -> Option<StreamInfo> {
    if audio is Some {
        audio
    } else {
        video
    }
}

/// The start that the streams declare, if one can be trusted: a declared zero
/// is what sources say that do not know their first timestamp yet.
pub open spec fn declared_start(
    audio: Option<StreamInfo>,
    video: Option<StreamInfo>,
) -> Option<int> {
    match start_stream(audio, video) {
        Some(s) => match s.start_time {
            Some(pts) => if s.time_base.defined() && s.time_base.instant_sign(pts as int) > 0 {
                Some(s.time_base.instant_nanos(pts as int))
            } else {
                None
            },
            None => None,
        },
        None => None,
    }
}

/// Whether the start that the streams declare lies beyond what a time can hold.
pub open spec fn declared_start_beyond(
    audio: Option<StreamInfo>,
    video: Option<StreamInfo>,
) -> bool {
    start_stream(audio, video) matches Some(s) && s.start_time matches Some(pts)
        && s.time_base.beyond(pts as int)
}

/// The instant of `ticks` on a stream's timeline, if it has one at or after
/// zero.
pub open spec fn stream_instant(stream: Option<StreamInfo>, ticks: Option<i64>) -> Option<int> {
    match stream {
        Some(s) => match ticks {
            Some(p) => if s.time_base.reaches(p as int) {
                Some(s.time_base.instant_nanos(p as int))
            } else {
                None
            },
            None => None,
        },
        None => None,
    }
}

/// Whether `ticks` lies beyond what a time can hold on a stream's timeline.
pub open spec fn stream_beyond(stream: Option<StreamInfo>, ticks: Option<i64>) -> bool {
    stream matches Some(s) && ticks matches Some(p) && s.time_base.beyond(p as int)
}

/// `x`, or zero for none.
pub open spec fn or_zero(x: Option<int>) -> int {
    match x {
        Some(v) => v,
        None => 0,
    }
}

/// The sum of a target and the allowance for falling behind it.
pub open spec fn grace_end(video: Option<StreamInfo>, pts: Option<i64>) -> int {
    or_zero(stream_instant(video, pts)) + MAX_BEHIND_NANOS
}

/// The frames that are left once the stale ones at the front are skipped: a
/// frame is stale when its target is more than the allowance behind `now`. The
/// last frame is never skipped.
pub open spec fn trimmed<V>(
    queue: Seq<VideoFrame<V>>,
    video: Option<StreamInfo>,
    now: int,
) -> Seq<VideoFrame<V>>
    decreases queue.len(),
{
    if queue.len() > 1 && grace_end(video, queue[0].pts) < now {
        trimmed(queue.drop_first(), video, now)
    } else {
        queue
    }
}

/// Whether taking messages must stop, with room for `headroom` samples where `floor` are
/// asked for, and `waiting` video frames where `cap` are too many.
pub open spec fn holds_back(headroom: int, floor: int, waiting: int, cap: int) -> bool {
    headroom < floor || waiting >= cap
}

impl<V> EngineModel<V> {
    /// A freshly built engine.
    pub open spec fn initial(streams: Seq<StreamInfo>, duration: Option<MediaTime>) -> Self {
        let audio = first_of_kind(streams, MediaType::Audio);
        let video = first_of_kind(streams, MediaType::Video);
        let start = declared_start(audio, video);
        EngineModel {
            audio,
            video,
            rate: match audio {
                Some(s) => match s.params.sample_rate {
                    Some(r) => r,
                    None => DEFAULT_AUDIO_RATE,
                },
                None => DEFAULT_AUDIO_RATE,
            },
            queue: Seq::empty(),
            origin: or_zero(start),
            baseline: 0,
            audio_end: if audio is Some {
                or_zero(start)
            } else {
                0
            },
            anchored: start is Some,
            decoded_pts: None,
            presented_pts: None,
            paused: false,
            volume: VOLUME_UNITY,
            muted: false,
            pending: None,
            overtaken: None,
            generation: 0,
            seekable: true,
            done: false,
            duration,
            pushed: None,
            track_due: true,
        }
    }

    /// Whether every instant that the engine keeps is one that a time can hold,
    /// and the volume is no more than unity.
    pub open spec fn well_formed(self) -> bool {
        &&& self.volume <= VOLUME_UNITY
        &&& 0 <= self.origin <= MAX_NANOS
        &&& 0 <= self.audio_end <= MAX_NANOS
        &&& !stream_beyond(self.video, self.decoded_pts)
        &&& !stream_beyond(self.video, self.presented_pts)
        &&& forall|i: int|
            0 <= i < self.queue.len() ==> !stream_beyond(
                self.video,
                (#[trigger] self.queue[i]).pts,
            )
    }

    /// The playback position while the master clock reads `raw`.
    pub open spec fn position(self, raw: int) -> int {
        position_nanos(self.origin, raw, self.baseline as int, self.rate as int)
    }

    /// When the front frame of the queue is due; one without a timestamp is due
    /// from the start.
    pub open spec fn front_target(self) -> int {
        or_zero(stream_instant(self.video, self.queue[0].pts))
    }

    /// The volume that the driver is to play at.
    pub open spec fn gain(self) -> u32 {
        if self.muted {
            0
        } else {
            self.volume
        }
    }

    /// What the Now Playing widget is to show.
    pub open spec fn playback(self) -> PlaybackState {
        if self.paused {
            PlaybackState::Paused
        } else {
            PlaybackState::Playing
        }
    }

    /// After the first timestamped frame: a clock that has no anchor yet gets
    /// one at the frame's timestamp.
    pub open spec fn first_anchor(self, stream: Option<StreamInfo>, pts: Option<i64>, raw: int) -> Self {
        match stream_instant(stream, pts) {
            Some(at) if !self.anchored => EngineModel {
                origin: at,
                baseline: samples_at(raw, self.rate as int) as u64,
                audio_end: if self.audio is Some {
                    at
                } else {
                    self.audio_end
                },
                anchored: true,
                ..self
            },
            _ => self,
        }
    }

    /// After an audio frame: it extends the audio handed to the driver.
    pub open spec fn after_audio(self, pts: Option<i64>, samples: u32, raw: int) -> Self {
        let m = self.first_anchor(self.audio, pts, raw);
        EngineModel {
            audio_end: if m.rate > 0 {
                m.audio_end + sample_nanos(samples as int, m.rate as int)
            } else {
                m.audio_end
            },
            ..m
        }
    }

    /// After a video frame: it joins the queue at the end.
    pub open spec fn after_video(self, frame: VideoFrame<V>, raw: int) -> Self {
        let m = self.first_anchor(self.video, frame.pts, raw);
        EngineModel {
            decoded_pts: if frame.pts is Some {
                frame.pts
            } else {
                m.decoded_pts
            },
            queue: m.queue.push(frame),
            ..m
        }
    }

    /// After the source has landed a seek at `landed`.
    pub open spec fn landed(self, landed: int, raw: int) -> Self {
        EngineModel {
            origin: landed,
            baseline: samples_at(raw, self.rate as int) as u64,
            audio_end: landed,
            anchored: true,
            pending: None,
            ..self
        }
    }

    /// After a message, while the master clock reads `raw`. While a seek is in
    /// flight frames are dropped; a barrier counts only if it is of the
    /// generation in flight.
    pub open spec fn after_message<A>(self, msg: EngineMsg<A, V>, raw: int) -> Self {
        match msg {
            EngineMsg::Started(_) => self,
            EngineMsg::Frame { kind: _, frame } => if self.pending is Some {
                self
            } else {
                match frame {
                    Frame::Audio(f) => self.after_audio(f.pts, f.samples, raw),
                    Frame::Video(f) => self.after_video(f, raw),
                    Frame::Other => self,
                }
            },
            EngineMsg::Barrier(
                BarrierKind::SeekFlush { generation, landed_pts, time_base },
            ) => if self.pending == Some(generation) {
                self.landed(time_base.instant_nanos(landed_pts as int), raw)
            } else {
                self
            },
            EngineMsg::Barrier(BarrierKind::SeekRejected { generation }) => if self.pending
                == Some(generation) {
                EngineModel { seekable: false, pending: None, ..self }
            } else {
                self
            },
            EngineMsg::Finished => EngineModel { done: true, ..self },
        }
    }

    /// Whether the times that a message leads to can be held: what it carries
    /// lies at or after zero where it must, and not beyond the longest time.
    pub open spec fn accepts<A>(self, msg: EngineMsg<A, V>, raw: int) -> bool {
        match msg {
            EngineMsg::Frame { kind: _, frame } => self.pending is None ==> match frame {
                Frame::Audio(f) => {
                    &&& !self.anchored ==> !stream_beyond(self.audio, f.pts)
                    &&& self.after_audio(f.pts, f.samples, raw).audio_end <= MAX_NANOS
                },
                Frame::Video(f) => !stream_beyond(self.video, f.pts),
                Frame::Other => true,
            },
            EngineMsg::Barrier(
                BarrierKind::SeekFlush { generation, landed_pts, time_base },
            ) => self.pending == Some(generation) ==> time_base.reaches(landed_pts as int),
            _ => true,
        }
    }

    /// What is to be done about a message.
    pub open spec fn delivery<A>(self, msg: EngineMsg<A, V>) -> Delivery<A> {
        match msg {
            EngineMsg::Frame { kind: _, frame: Frame::Audio(f) } => if self.pending is None {
                Delivery::QueueAudio(f)
            } else {
                Delivery::Nothing
            },
            EngineMsg::Barrier(BarrierKind::SeekRejected { generation }) => if self.pending
                == Some(generation) {
                Delivery::SeekUnsupported
            } else {
                Delivery::Nothing
            },
            _ => Delivery::Nothing,
        }
    }

    /// The stream that a seek addresses: the video stream, and without one the
    /// audio stream.
    pub open spec fn seek_stream(self) -> Option<StreamInfo> {
        if self.video is Some {
            self.video
        } else {
            self.audio
        }
    }

    /// After a request to seek to `target`, and what is to be done about it.
    /// With nothing to seek, the stream does not support seeking.
    pub open spec fn seek_to(self, target: int) -> (Self, Reaction) {
        match self.seek_stream() {
            None => (EngineModel { seekable: false, ..self }, Reaction::Nothing),
            Some(s) => {
                let generation = if self.generation == u32::MAX {
                    0
                } else {
                    (self.generation + 1) as u32
                };
                (
                    EngineModel {
                        queue: Seq::empty(),
                        generation,
                        pending: Some(generation),
                        overtaken: self.pending,
                        ..self
                    },
                    Reaction::Seek {
                        stream: s.index,
                        pts: s.time_base.ticks_at(target) as i64,
                        time_base: s.time_base,
                    },
                )
            },
        }
    }

    /// After the executor's reply to a request to seek: only a request that was
    /// accepted is in flight. After any other, the seek that was in flight before it
    /// still is.
    pub open spec fn after_reply(self, reply: SeekReply) -> Self {
        EngineModel {
            pending: if reply == SeekReply::Accepted {
                self.pending
            } else {
                self.overtaken
            },
            overtaken: None,
            seekable: self.seekable && reply != SeekReply::Unsupported,
            ..self
        }
    }

    /// The instant that a relative seek aims at.
    pub open spec fn relative_target(self, by: int, dir: SeekDir, raw: int) -> int {
        match dir {
            SeekDir::Forward => self.position(raw) + by,
            SeekDir::Back => monus(self.position(raw), by),
        }
    }

    /// `volume` moved by `points` percentage points, held between silence and
    /// unity.
    pub open spec fn nudged_volume(volume: u32, points: int) -> int {
        let v = volume + points * VOLUME_POINT;
        if v < 0 {
            0
        } else if v > VOLUME_UNITY {
            VOLUME_UNITY as int
        } else {
            v
        }
    }

    /// After a change of the volume: the driver hears of it unless muted.
    pub open spec fn with_volume(self, volume: int) -> (Self, Reaction) {
        (
            EngineModel { volume: volume as u32, ..self },
            if self.muted {
                Reaction::Nothing
            } else {
                Reaction::SetVolume(volume as u32)
            },
        )
    }

    /// After a user event, and what is to be done about it.
    pub open spec fn after_event(self, ev: PlayerEvent, raw: int) -> (Self, Reaction) {
        match ev {
            PlayerEvent::Quit => (self, Reaction::Quit),
            PlayerEvent::TogglePause => (
                EngineModel { paused: !self.paused, ..self },
                Reaction::SetPaused(!self.paused),
            ),
            PlayerEvent::SeekRelative(by, dir) => if self.seekable {
                self.seek_to(self.relative_target(by.nanos(), dir, raw))
            } else {
                (self, Reaction::Nothing)
            },
            PlayerEvent::SeekAbsolute(target) => if self.seekable {
                self.seek_to(target.nanos())
            } else {
                (self, Reaction::Nothing)
            },
            PlayerEvent::VolumeDelta(d) => self.with_volume(
                Self::nudged_volume(self.volume, d as int),
            ),
            PlayerEvent::SetVolume(v) => self.with_volume(
                if v > VOLUME_UNITY {
                    VOLUME_UNITY as int
                } else {
                    v as int
                },
            ),
            PlayerEvent::ToggleMute => {
                let m = EngineModel { muted: !self.muted, ..self };
                (m, Reaction::SetVolume(m.gain()))
            },
        }
    }

    /// Whether the times that an event leads to can be held.
    pub open spec fn takes_event(self, ev: PlayerEvent, raw: int) -> bool {
        match ev {
            PlayerEvent::SeekRelative(by, dir) => self.seekable ==> {
                &&& self.position(raw) <= MAX_NANOS
                &&& self.relative_target(by.nanos(), dir, raw) <= MAX_NANOS
            },
            _ => true,
        }
    }

    /// After skipping the stale frames at the front of the queue. Without a video
    /// stream nothing tells a stale frame.
    pub open spec fn after_trim(self, raw: int) -> Self {
        EngineModel {
            queue: if self.video is Some {
                trimmed(self.queue, self.video, self.position(raw))
            } else {
                self.queue
            },
            ..self
        }
    }

    /// Whether the front frame is to be presented now.
    pub open spec fn front_is_due(self, raw: int) -> bool {
        self.queue.len() > 0 && self.front_target() <= self.position(raw) + PRESENT_EPSILON_NANOS
    }

    /// After handing the front frame to the driver.
    pub open spec fn after_front(self) -> Self {
        EngineModel {
            queue: self.queue.drop_first(),
            presented_pts: self.queue[0].pts,
            ..self
        }
    }

    /// After looking for a frame to show, and the frame. A sink without deadlines
    /// (`drains`) is shown every frame, due or not; any other is shown what is due, and
    /// stale frames are skipped first.
    pub open spec fn presented(self, drains: bool, raw: int) -> (Self, Option<VideoFrame<V>>) {
        if drains {
            if self.queue.len() > 0 {
                (self.after_front(), Some(self.queue[0]))
            } else {
                (self, None)
            }
        } else {
            let m = self.after_trim(raw);
            if m.front_is_due(raw) {
                (m.after_front(), Some(m.queue[0]))
            } else {
                (m, None)
            }
        }
    }

    /// The target of the next video frame, if it has one.
    pub open spec fn next_target(self) -> Option<int> {
        if self.queue.len() == 0 {
            None
        } else {
            stream_instant(self.video, self.queue[0].pts)
        }
    }

    /// How long the player sleeps before the next tick: until a little before
    /// the next video frame's target, but never longer than the routine interval
    /// and never so short as to spin.
    pub open spec fn sleep(self, raw: int) -> int {
        match self.next_target() {
            Some(target) => {
                let until = monus(monus(target, self.position(raw)), WAKE_EARLY_NANOS as int);
                if until > TICK_NANOS {
                    TICK_NANOS as int
                } else if until < MIN_SLEEP_NANOS {
                    MIN_SLEEP_NANOS as int
                } else {
                    until
                }
            },
            None => TICK_NANOS as int,
        }
    }

    /// Whether the audio handed to the driver has been played.
    pub open spec fn audio_drained(self, queued_samples: u64) -> bool {
        self.audio is None || (self.audio_end > 0 && queued_samples == 0)
    }

    /// Whether playback is over, when `queued_samples` samples still wait in the driver.
    pub open spec fn over(self, queued_samples: u64) -> bool {
        self.done && self.audio_drained(queued_samples) && self.queue.len() == 0 && !self.paused
    }

    /// Whether a tick that has taken `taken` messages takes another, with room for
    /// `headroom` more samples in the audio ring.
    pub open spec fn takes_more(self, taken: int, headroom: int) -> bool {
        taken < PER_TICK_BUDGET && !holds_back(
            headroom,
            self.rate as int / 4,
            self.queue.len() as int,
            VIDEO_QUEUE_SOFT_CAP as int,
        )
    }

    /// The user event that a command from the system stands for.
    pub open spec fn command_event(self, cmd: MediaCommand) -> Option<PlayerEvent> {
        match cmd {
            MediaCommand::Play => if self.paused {
                Some(PlayerEvent::TogglePause)
            } else {
                None
            },
            MediaCommand::Pause => if self.paused {
                None
            } else {
                Some(PlayerEvent::TogglePause)
            },
            MediaCommand::TogglePlayPause => Some(PlayerEvent::TogglePause),
            MediaCommand::Seek(n) => {
                let n = if n < 0 {
                    0
                } else {
                    n as int
                };
                Some(
                    PlayerEvent::SeekAbsolute(
                        MediaTime {
                            secs: (n / 1_000_000_000) as u64,
                            sub_nanos: (n % 1_000_000_000) as u32,
                        },
                    ),
                )
            },
            MediaCommand::Next => None,
            MediaCommand::Previous => None,
        }
    }

    /// After describing the track to the system, and the state to show with it.
    pub open spec fn announced(self) -> (Self, Option<PlaybackState>) {
        if self.track_due {
            (
                EngineModel { track_due: false, pushed: Some(self.playback()), ..self },
                Some(self.playback()),
            )
        } else {
            (self, None)
        }
    }

    /// After telling the system whether the player plays, and the state to show.
    pub open spec fn synced(self) -> (Self, Option<PlaybackState>) {
        (
            EngineModel { pushed: Some(self.playback()), ..self },
            if self.pushed == Some(self.playback()) {
                None
            } else {
                Some(self.playback())
            },
        )
    }
}

impl<V> View for PlayerEngine<V> {
    type V = EngineModel<V>;

    open spec fn view(&self) -> EngineModel<V> {
        EngineModel {
            audio: self.audio_stream,
            video: self.video_stream,
            rate: self.audio_rate,
            queue: self.video_queue@,
            origin: self.clock_origin.nanos(),
            baseline: self.clock_baseline_samples,
            audio_end: self.last_audio_end.nanos(),
            anchored: self.initial_clock_anchored,
            decoded_pts: self.last_video_pts,
            presented_pts: self.last_video_presented_pts,
            paused: self.paused,
            volume: self.volume,
            muted: self.muted,
            pending: self.seek_pending_gen,
            overtaken: self.seek_overtaken_gen,
            generation: self.seek_gen_counter,
            seekable: self.seek_supported,
            done: self.executor_done,
            duration: self.duration,
            pushed: self.last_pushed_state,
            track_due: self.media_controls_pending_track,
        }
    }
}

// ───────────────────── the engine ─────────────────────

/// The start that the streams declare, if one can be trusted. Audio wins because
/// it is the master clock; a declared zero counts as not known yet.
pub fn initial_declared_start(
    audio: &Option<StreamInfo>,
    video: &Option<StreamInfo>,
) -> (start: Option<MediaTime>)
    requires
        !declared_start_beyond(*audio, *video),
    ensures
        start is Some <==> declared_start(*audio, *video) is Some,
        start matches Some(t) ==> t.nanos() == declared_start(*audio, *video)->0 && t.canonical(),
{
    let stream = match audio {
        Some(s) => s,
        None => match video {
            Some(s) => s,
            None => {
                return None;
            },
        },
    };
    match stream.start_time {
        Some(pts) => match stream.time_base.side(pts) {
            Side::After => stream.time_base.time_of(pts),
            _ => None,
        },
        None => None,
    }
}

/// The instant of `ticks` on a stream's timeline, if it has one at or after
/// zero.
fn instant_on(stream: &Option<StreamInfo>, ticks: Option<i64>) -> (t: Option<MediaTime>)
    requires
        !stream_beyond(*stream, ticks),
    ensures
        t is Some <==> stream_instant(*stream, ticks) is Some,
        t matches Some(m) ==> m.nanos() == stream_instant(*stream, ticks)->0 && m.canonical(),
{
    match stream {
        Some(s) => match ticks {
            Some(p) => s.time_base.time_of(p),
            None => None,
        },
        None => None,
    }
}

/// Whether `ticks` lies beyond what a time can hold on a stream's timeline.
fn is_beyond(stream: &Option<StreamInfo>, ticks: Option<i64>) -> (b: bool)
    ensures
        b == stream_beyond(*stream, ticks),
{
    match stream {
        Some(s) => match ticks {
            Some(p) => s.time_base.is_beyond(p),
            None => false,
        },
        None => false,
    }
}

impl<V> PlayerEngine<V> {
    /// Whether the engine's state is sound.
    pub open spec fn well_formed(self) -> bool {
        self@.well_formed()
    }

    /// Whether the start that `streams` declare is one that a time can hold.
    pub fn start_fits(streams: &[StreamInfo]) -> (b: bool)
        ensures
            b == !declared_start_beyond(
                first_of_kind(streams@, MediaType::Audio),
                first_of_kind(streams@, MediaType::Video),
            ),
    {
        let stream = match find_stream(streams, MediaType::Audio) {
            Some(s) => Some(s),
            None => find_stream(streams, MediaType::Video),
        };
        let start = match &stream {
            Some(s) => s.start_time,
            None => None,
        };
        !is_beyond(&stream, start)
    }

    /// An engine for `streams`: the first audio stream and the first video
    /// stream play.
    pub fn new(streams: &[StreamInfo], duration: Option<MediaTime>) -> (engine: Self)
        requires
            !declared_start_beyond(
                first_of_kind(streams@, MediaType::Audio),
                first_of_kind(streams@, MediaType::Video),
            ),
        ensures
            engine.well_formed(),
            engine@ == EngineModel::<V>::initial(streams@, duration),
    {
        let audio_stream = find_stream(streams, MediaType::Audio);
        let video_stream = find_stream(streams, MediaType::Video);
        let audio_rate: u32 = match &audio_stream {
            Some(s) => match s.params.sample_rate {
                Some(r) => r,
                None => DEFAULT_AUDIO_RATE,
            },
            None => DEFAULT_AUDIO_RATE,
        };
        let declared = initial_declared_start(&audio_stream, &video_stream);
        let clock_origin = match declared {
            Some(t) => t,
            None => MediaTime::zero(),
        };
        let last_audio_end = if audio_stream.is_some() {
            clock_origin
        } else {
            MediaTime::zero()
        };
        PlayerEngine {
            audio_stream,
            video_stream,
            audio_rate,
            video_queue: VecDeque::new(),
            clock_origin,
            clock_baseline_samples: 0,
            last_audio_end,
            initial_clock_anchored: declared.is_some(),
            last_video_pts: None,
            last_video_presented_pts: None,
            paused: false,
            volume: VOLUME_UNITY,
            muted: false,
            seek_pending_gen: None,
            seek_overtaken_gen: None,
            seek_gen_counter: 0,
            seek_supported: true,
            executor_done: false,
            duration,
            last_pushed_state: None,
            media_controls_pending_track: true,
        }
    }

    /// Mutes or unmutes. The volume that the driver is to play at comes back.
    pub fn set_muted(&mut self, muted: bool) -> (gain: u32)
        ensures
            final(self)@ == (EngineModel { muted, ..old(self)@ }),
            gain == final(self)@.gain(),
            muted ==> gain == 0,
            !muted ==> gain == old(self)@.volume,
    {
        self.muted = muted;
        if muted {
            0
        } else {
            self.volume
        }
    }

    /// Whether taking messages must stop: when either the room left in the audio
    /// ring is below its floor or the video queue is at its cap.
    ///
    /// Both streams arrive on one channel, so stopping holds back both.
    pub fn should_throttle_drain(
        audio_headroom_samples: u64,
        audio_headroom_floor: u64,
        video_queue_len: usize,
        video_queue_cap: usize,
    ) -> (stop: bool)
        ensures
            stop == (audio_headroom_samples < audio_headroom_floor || video_queue_len
                >= video_queue_cap),
            stop == holds_back(
                audio_headroom_samples as int,
                audio_headroom_floor as int,
                video_queue_len as int,
                video_queue_cap as int,
            ),
    {
        let audio_low = audio_headroom_samples < audio_headroom_floor;
        let video_full = video_queue_len >= video_queue_cap;
        audio_low || video_full
    }

    /// Whether the tick that has taken `taken` messages is to take another, with
    /// room for `audio_headroom_samples` more samples in the audio ring. The
    /// ring's floor is a quarter of a second.
    pub fn wants_message(&self, taken: usize, audio_headroom_samples: u64) -> (more: bool)
        ensures
            more == (taken < PER_TICK_BUDGET && audio_headroom_samples >= self@.rate / 4
                && self@.queue.len() < VIDEO_QUEUE_SOFT_CAP),
            more == self@.takes_more(taken as int, audio_headroom_samples as int),
    {
        taken < PER_TICK_BUDGET && !Self::should_throttle_drain(
            audio_headroom_samples,
            self.audio_rate as u64 / 4,
            self.video_queue.len(),
            VIDEO_QUEUE_SOFT_CAP,
        )
    }

    /// Whether the times that `msg` leads to can be held.
    pub fn can_take<A>(&self, msg: &EngineMsg<A, V>, raw: MediaTime) -> (b: bool)
        requires
            self.well_formed(),
        ensures
            b == self@.accepts(*msg, raw.nanos()),
    {
        match msg {
            EngineMsg::Frame { kind: _, frame } => {
                if self.seek_pending_gen.is_some() {
                    return true;
                }
                match frame {
                    Frame::Audio(af) => {
                        let mut end: u128 = self.last_audio_end.to_nanos();
                        if !self.initial_clock_anchored {
                            if is_beyond(&self.audio_stream, af.pts) {
                                return false;
                            }
                            if let Some(t) = instant_on(&self.audio_stream, af.pts) {
                                end = t.to_nanos();
                            }
                        }
                        if self.audio_rate > 0 {
                            let span = sample_span(af.samples as u64, self.audio_rate);
                            end = end + span.to_nanos();
                        }
                        end <= MAX_NANOS
                    },
                    Frame::Video(vf) => !is_beyond(&self.video_stream, vf.pts),
                    Frame::Other => true,
                }
            },
            EngineMsg::Barrier(BarrierKind::SeekFlush { generation, landed_pts, time_base }) => {
                if self.seek_is_pending(*generation) && time_base.is_beyond(*landed_pts) {
                    return false;
                }
                !self.seek_is_pending(*generation) || time_base.time_of(*landed_pts).is_some()
            },
            _ => true,
        }
    }

    /// Whether the playback position can be held while the driver's master clock
    /// reads `raw`.
    pub fn position_fits(&self, raw: MediaTime) -> (b: bool)
        ensures
            b == (self@.position(raw.nanos()) <= MAX_NANOS),
    {
        let base: u128 = sample_span(self.clock_baseline_samples, self.audio_rate).to_nanos();
        let raw: u128 = raw.to_nanos();
        let advance: u128 = if raw >= base { raw - base } else { 0 };
        self.clock_origin.to_nanos() + advance <= MAX_NANOS
    }

    /// Whether the times that `ev` leads to can be held.
    pub fn can_apply(&self, ev: PlayerEvent, raw: MediaTime) -> (b: bool)
        ensures
            b == self@.takes_event(ev, raw.nanos()),
    {
        match ev {
            PlayerEvent::SeekRelative(by, dir) => {
                if !self.seek_supported {
                    return true;
                }
                if !self.position_fits(raw) {
                    return false;
                }
                match dir {
                    SeekDir::Forward => self.position(raw).to_nanos() + by.to_nanos() <= MAX_NANOS,
                    SeekDir::Back => true,
                }
            },
            _ => true,
        }
    }

    /// Takes in one message, while the driver's master clock reads `raw`.
    pub fn on_message<A>(&mut self, msg: EngineMsg<A, V>, raw: MediaTime) -> (d: Delivery<A>)
        requires
            old(self).well_formed(),
            old(self)@.accepts(msg, raw.nanos()),
        ensures
            final(self).well_formed(),
            final(self)@ == old(self)@.after_message(msg, raw.nanos()),
            d == old(self)@.delivery(msg),
    {
        match msg {
            EngineMsg::Started(_) => Delivery::Nothing,
            EngineMsg::Frame { kind: _, frame } => {
                if self.seek_pending_gen.is_some() {
                    return Delivery::Nothing;
                }
                match frame {
                    Frame::Audio(af) => {
                        if !self.initial_clock_anchored && self.audio_stream.is_some() {
                            let at = instant_on(&self.audio_stream, af.pts);
                            self.anchor_initial_clock(at, raw);
                        }
                        if self.audio_rate > 0 {
                            let span = sample_span(af.samples as u64, self.audio_rate);
                            self.last_audio_end = self.last_audio_end.plus(&span);
                        }
                        Delivery::QueueAudio(af)
                    },
                    Frame::Video(vf) => {
                        if !self.initial_clock_anchored && self.video_stream.is_some() {
                            let at = instant_on(&self.video_stream, vf.pts);
                            self.anchor_initial_clock(at, raw);
                        }
                        if vf.pts.is_some() {
                            self.last_video_pts = vf.pts;
                        }
                        self.video_queue.push_back(vf);
                        Delivery::Nothing
                    },
                    Frame::Other => Delivery::Nothing,
                }
            },
            EngineMsg::Barrier(BarrierKind::SeekFlush { generation, landed_pts, time_base }) => {
                if self.seek_is_pending(generation) {
                    let landed = time_base.time_of(landed_pts);
                    match landed {
                        Some(t) => self.on_seek_landed(t, raw),
                        None => {},
                    }
                }
                Delivery::Nothing
            },
            EngineMsg::Barrier(BarrierKind::SeekRejected { generation }) => {
                if self.seek_is_pending(generation) {
                    self.seek_supported = false;
                    self.seek_pending_gen = None;
                    Delivery::SeekUnsupported
                } else {
                    Delivery::Nothing
                }
            },
            EngineMsg::Finished => {
                self.executor_done = true;
                Delivery::Nothing
            },
        }
    }

    /// Takes note that the executor's end of the channel is gone.
    pub fn on_disconnected(&mut self)
        ensures
            final(self)@ == (EngineModel { done: true, ..old(self)@ }),
    {
        self.executor_done = true;
    }

    /// Whether the seek in flight is of generation `generation`.
    fn seek_is_pending(&self, generation: u32) -> (b: bool)
        ensures
            b == (self@.pending == Some(generation)),
    {
        match self.seek_pending_gen {
            Some(g) => g == generation,
            None => false,
        }
    }

    /// Anchors a clock that has no anchor yet at the instant `at`, while the
    /// driver's master clock reads `raw`: the frame that supplied the instant is
    /// then due at once, however large its timestamp.
    fn anchor_initial_clock(&mut self, at: Option<MediaTime>, raw: MediaTime)
        requires
            !old(self)@.anchored,
        ensures
            at is None ==> *final(self) == *old(self),
            at matches Some(t) ==> final(self)@ == (EngineModel {
                origin: t.nanos(),
                baseline: samples_at(raw.nanos(), old(self)@.rate as int) as u64,
                audio_end: if old(self)@.audio is Some {
                    t.nanos()
                } else {
                    old(self)@.audio_end
                },
                anchored: true,
                ..old(self)@
            }),
    {
        if let Some(t) = at {
            self.clock_baseline_samples = baseline_samples(raw, self.audio_rate);
            self.clock_origin = t;
            if self.audio_stream.is_some() {
                self.last_audio_end = t;
            }
            self.initial_clock_anchored = true;
        }
    }

    /// Anchors the clock at `landed`, where the source says that it landed: the
    /// position reads `landed` from this moment, while the driver's master clock
    /// reads `raw`.
    pub fn on_seek_landed(&mut self, landed: MediaTime, raw: MediaTime)
        requires
            old(self).well_formed(),
            landed.nanos() <= MAX_NANOS,
        ensures
            final(self).well_formed(),
            final(self)@ == old(self)@.landed(landed.nanos(), raw.nanos()),
    {
        self.clock_baseline_samples = baseline_samples(raw, self.audio_rate);
        self.clock_origin = landed;
        self.initial_clock_anchored = true;
        self.last_audio_end = landed;
        self.seek_pending_gen = None;
    }

    /// The playback position, while the driver's master clock reads `raw`.
    pub fn position(&self, raw: MediaTime) -> (t: MediaTime)
        requires
            self@.position(raw.nanos()) <= MAX_NANOS,
        ensures
            t.nanos() == self@.position(raw.nanos()),
            t.canonical(),
    {
        position_from(self.clock_origin, raw, self.clock_baseline_samples, self.audio_rate)
    }

    /// Skips the video frames that have fallen too far behind, but never the
    /// only frame left: when decoding is slower than real time, skipping that one
    /// too would leave nothing to show.
    pub fn trim_video_queue(&mut self, raw: MediaTime)
        requires
            old(self).well_formed(),
            old(self)@.position(raw.nanos()) <= MAX_NANOS,
        ensures
            final(self).well_formed(),
            final(self)@ == old(self)@.after_trim(raw.nanos()),
    {
        if self.video_stream.is_none() {
            return;
        }
        let now: u128 = self.position(raw).to_nanos();
        while self.video_queue.len() > 1
            invariant_except_break
                self@ == (EngineModel { queue: self@.queue, ..old(self)@ }),
                self@.well_formed(),
                self@.video is Some,
                now == old(self)@.position(raw.nanos()),
                trimmed(old(self)@.queue, self@.video, now as int) == trimmed(
                    self@.queue,
                    self@.video,
                    now as int,
                ),
            ensures
                self@ == (EngineModel { queue: self@.queue, ..old(self)@ }),
                self@.well_formed(),
                self@.queue == trimmed(old(self)@.queue, old(self)@.video, now as int),
            decreases self@.queue.len(),
        {
            let target: u128 = match instant_on(&self.video_stream, self.video_queue[0].pts) {
                Some(t) => t.to_nanos(),
                None => 0,
            };
            if target + MAX_BEHIND_NANOS < now {
                let ghost before = self@.queue;
                let _ = self.video_queue.pop_front();
                assert(self@.queue == before.drop_first());
            } else {
                break;
            }
        }
    }

    /// Takes the front video frame off the queue if it is due. At most one frame
    /// comes out per call.
    pub fn present_one_video_frame(&mut self, raw: MediaTime) -> (shown: Option<VideoFrame<V>>)
        requires
            old(self).well_formed(),
            old(self)@.position(raw.nanos()) <= MAX_NANOS,
        ensures
            final(self).well_formed(),
            final(self)@ == (if old(self)@.front_is_due(raw.nanos()) {
                old(self)@.after_front()
            } else {
                old(self)@
            }),
            shown == (if old(self)@.front_is_due(raw.nanos()) {
                Some(old(self)@.queue[0])
            } else {
                None
            }),
    {
        if self.video_queue.len() == 0 {
            return None;
        }
        let now: u128 = self.position(raw).to_nanos();
        let target: u128 = match instant_on(&self.video_stream, self.video_queue[0].pts) {
            Some(t) => t.to_nanos(),
            None => 0,
        };
        if target <= now + PRESENT_EPSILON_NANOS {
            self.drain_video_queue()
        } else {
            None
        }
    }

    /// Takes the front video frame off the queue, due or not. A sink without
    /// deadlines is handed every frame, by calls until none is left.
    pub fn drain_video_queue(&mut self) -> (shown: Option<VideoFrame<V>>)
        requires
            old(self).well_formed(),
        ensures
            final(self).well_formed(),
            shown is Some <==> old(self)@.queue.len() > 0,
            shown matches Some(f) ==> f == old(self)@.queue[0] && final(self)@
                == old(self)@.after_front(),
            shown is None ==> final(self)@ == old(self)@,
    {
        let front = self.video_queue.pop_front();
        match front {
            Some(f) => {
                self.last_video_presented_pts = f.pts;
                assert(self@.queue == old(self)@.queue.drop_first());
                Some(f)
            },
            None => None,
        }
    }

    /// The next frame to show, if there is one. A sink without deadlines (`drains`) is
    /// shown every frame, by calls until none is left: what it makes of them does not
    /// depend on timing. Any other is shown one frame a tick.
    pub fn present_next(&mut self, drains: bool, raw: MediaTime) -> (shown: Option<VideoFrame<V>>)
        requires
            old(self).well_formed(),
            !drains ==> old(self)@.position(raw.nanos()) <= MAX_NANOS,
        ensures
            final(self).well_formed(),
            (final(self)@, shown) == old(self)@.presented(drains, raw.nanos()),
    {
        if drains {
            self.drain_video_queue()
        } else {
            self.trim_video_queue(raw);
            self.present_one_video_frame(raw)
        }
    }

    /// The target of the next video frame, if it has one.
    pub fn next_video_target(&self) -> (t: Option<MediaTime>)
        requires
            self.well_formed(),
        ensures
            t is Some <==> self@.next_target() is Some,
            t matches Some(m) ==> m.nanos() == self@.next_target()->0 && m.canonical(),
    {
        if self.video_queue.len() == 0 {
            None
        } else {
            instant_on(&self.video_stream, self.video_queue[0].pts)
        }
    }

    /// How long to sleep before the next tick.
    pub fn sleep_time(&self, raw: MediaTime) -> (t: MediaTime)
        requires
            self.well_formed(),
            self@.position(raw.nanos()) <= MAX_NANOS,
        ensures
            t.nanos() == self@.sleep(raw.nanos()),
            t.canonical(),
    {
        let now: u128 = self.position(raw).to_nanos();
        let nanos: u128 = match self.next_video_target() {
            Some(target) => {
                let target: u128 = target.to_nanos();
                let ahead: u128 = if target >= now { target - now } else { 0 };
                let until: u128 = if ahead >= WAKE_EARLY_NANOS { ahead - WAKE_EARLY_NANOS } else { 0 };
                if until > TICK_NANOS {
                    TICK_NANOS
                } else if until < MIN_SLEEP_NANOS {
                    MIN_SLEEP_NANOS
                } else {
                    until
                }
            },
            None => TICK_NANOS,
        };
        MediaTime::from_nanos(nanos)
    }

    /// Applies one user event, while the driver's master clock reads `raw`. What
    /// the caller is to do about it comes back.
    pub fn apply_event(&mut self, ev: PlayerEvent, raw: MediaTime) -> (r: Reaction)
        requires
            old(self).well_formed(),
            old(self)@.takes_event(ev, raw.nanos()),
        ensures
            final(self).well_formed(),
            (final(self)@, r) == old(self)@.after_event(ev, raw.nanos()),
            r == Reaction::Quit <==> ev is Quit,
            final(self)@.paused != old(self)@.paused <==> ev is TogglePause,
            final(self)@.muted != old(self)@.muted <==> ev is ToggleMute,
            ev !is SeekRelative && ev !is SeekAbsolute ==> final(self)@.queue == old(self)@.queue
                && final(self)@.pending == old(self)@.pending,
    {
        match ev {
            PlayerEvent::Quit => Reaction::Quit,
            PlayerEvent::TogglePause => {
                self.paused = !self.paused;
                Reaction::SetPaused(self.paused)
            },
            PlayerEvent::SeekRelative(by, dir) => {
                if !self.seek_supported {
                    return Reaction::Nothing;
                }
                let cur = self.position(raw);
                let target = match dir {
                    SeekDir::Forward => cur.plus(&by),
                    SeekDir::Back => cur.saturating_sub(&by),
                };
                self.apply_seek(target)
            },
            PlayerEvent::SeekAbsolute(target) => {
                if !self.seek_supported {
                    return Reaction::Nothing;
                }
                self.apply_seek(target)
            },
            PlayerEvent::VolumeDelta(d) => {
                assert(d * VOLUME_POINT == d * 16_777_216);
                let v: i64 = self.volume as i64 + d as i64 * VOLUME_POINT as i64;
                self.volume = if v < 0 {
                    0
                } else if v > VOLUME_UNITY as i64 {
                    VOLUME_UNITY
                } else {
                    v as u32
                };
                self.volume_reaction()
            },
            PlayerEvent::SetVolume(v) => {
                self.volume = if v > VOLUME_UNITY {
                    VOLUME_UNITY
                } else {
                    v
                };
                self.volume_reaction()
            },
            PlayerEvent::ToggleMute => {
                self.muted = !self.muted;
                Reaction::SetVolume(if self.muted { 0 } else { self.volume })
            },
        }
    }

    /// What is to be done about a new volume.
    fn volume_reaction(&self) -> (r: Reaction)
        ensures
            r == (if self@.muted {
                Reaction::Nothing
            } else {
                Reaction::SetVolume(self@.volume)
            }),
    {
        if self.muted {
            Reaction::Nothing
        } else {
            Reaction::SetVolume(self.volume)
        }
    }

    /// Starts a seek to `target`: the queued video frames go at once, and a new
    /// generation is in flight.
    fn apply_seek(&mut self, target: MediaTime) -> (r: Reaction)
        requires
            old(self).well_formed(),
        ensures
            final(self).well_formed(),
            (final(self)@, r) == old(self)@.seek_to(target.nanos()),
    {
        let stream = match &self.video_stream {
            Some(v) => Some((v.index, v.time_base)),
            None => match &self.audio_stream {
                Some(a) => Some((a.index, a.time_base)),
                None => None,
            },
        };
        match stream {
            None => {
                self.seek_supported = false;
                Reaction::Nothing
            },
            Some((index, time_base)) => {
                let pts: i64 = time_base.ticks_of(target);
                self.video_queue.clear();
                self.seek_gen_counter = self.seek_gen_counter.wrapping_add(1);
                self.seek_overtaken_gen = self.seek_pending_gen;
                self.seek_pending_gen = Some(self.seek_gen_counter);
                Reaction::Seek { stream: index, pts, time_base }
            },
        }
    }

    /// Takes note of the executor's reply to a request to seek. After one that did not
    /// succeed, what was in flight before it still is. `true` comes back when the user is
    /// to be told of a failure.
    pub fn on_seek_reply(&mut self, reply: SeekReply) -> (tell: bool)
        ensures
            final(self)@ == old(self)@.after_reply(reply),
            tell == (reply == SeekReply::Failed),
    {
        let overtaken = self.seek_overtaken_gen;
        self.seek_overtaken_gen = None;
        match reply {
            SeekReply::Accepted => false,
            SeekReply::Unsupported => {
                self.seek_pending_gen = overtaken;
                self.seek_supported = false;
                false
            },
            SeekReply::Failed => {
                self.seek_pending_gen = overtaken;
                true
            },
        }
    }

    /// The user event that a command from the system stands for, if it stands for
    /// one: there is no playlist to move in.
    pub fn media_command_event(&self, cmd: MediaCommand) -> (ev: Option<PlayerEvent>)
        requires
            cmd matches MediaCommand::Seek(n) ==> n <= MAX_NANOS,
        ensures
            match cmd {
                MediaCommand::Play => ev == (if self@.paused {
                    Some(PlayerEvent::TogglePause)
                } else {
                    None
                }),
                MediaCommand::Pause => ev == (if self@.paused {
                    None
                } else {
                    Some(PlayerEvent::TogglePause)
                }),
                MediaCommand::TogglePlayPause => ev == Some(PlayerEvent::TogglePause),
                MediaCommand::Seek(n) => {
                    &&& ev matches Some(PlayerEvent::SeekAbsolute(t))
                    &&& t.nanos() == (if n < 0 {
                        0
                    } else {
                        n as int
                    })
                    &&& t.canonical()
                },
                MediaCommand::Next => ev is None,
                MediaCommand::Previous => ev is None,
            },
            ev == self@.command_event(cmd),
    {
        match cmd {
            MediaCommand::Play => if self.paused {
                Some(PlayerEvent::TogglePause)
            } else {
                None
            },
            MediaCommand::Pause => if self.paused {
                None
            } else {
                Some(PlayerEvent::TogglePause)
            },
            MediaCommand::TogglePlayPause => Some(PlayerEvent::TogglePause),
            MediaCommand::Seek(n) => {
                let n: u128 = if n < 0 { 0 } else { n as u128 };
                Some(PlayerEvent::SeekAbsolute(MediaTime::from_nanos(n)))
            },
            MediaCommand::Next => None,
            MediaCommand::Previous => None,
        }
    }

    /// What the Now Playing widget is to show.
    fn playback_state(&self) -> (s: PlaybackState)
        ensures
            s == self@.playback(),
    {
        if self.paused {
            PlaybackState::Paused
        } else {
            PlaybackState::Playing
        }
    }

    /// On the first call, the state to show along with the track's description;
    /// afterwards nothing.
    pub fn announce_track(&mut self) -> (state: Option<PlaybackState>)
        ensures
            old(self)@.track_due ==> state == Some(old(self)@.playback()) && final(self)@ == (
            EngineModel { track_due: false, pushed: Some(old(self)@.playback()), ..old(self)@ }),
            !old(self)@.track_due ==> state is None && final(self)@ == old(self)@,
            (final(self)@, state) == old(self)@.announced(),
    {
        if !self.media_controls_pending_track {
            return None;
        }
        let state = self.playback_state();
        self.last_pushed_state = Some(state);
        self.media_controls_pending_track = false;
        Some(state)
    }

    /// The state to show, if it is another than the one last shown.
    pub fn sync_playback_state(&mut self) -> (state: Option<PlaybackState>)
        ensures
            state == (if old(self)@.pushed == Some(old(self)@.playback()) {
                None
            } else {
                Some(old(self)@.playback())
            }),
            final(self)@ == (EngineModel { pushed: Some(old(self)@.playback()), ..old(self)@ }),
            (final(self)@, state) == old(self)@.synced(),
    {
        let want = self.playback_state();
        if let Some(shown) = self.last_pushed_state {
            if shown == want {
                return None;
            }
        }
        self.last_pushed_state = Some(want);
        Some(want)
    }

    /// Whether the audio handed to the driver has been played, when
    /// `queued_samples` samples still wait in the driver.
    pub fn audio_drained(&self, queued_samples: u64) -> (b: bool)
        ensures
            b == self@.audio_drained(queued_samples),
            b && self@.audio is Some ==> queued_samples == 0,
    {
        if self.audio_stream.is_none() {
            return true;
        }
        !self.last_audio_end.is_zero() && queued_samples == 0
    }

    /// Whether playback is over: nothing more comes, nothing is left to play or
    /// show, and the player is not paused.
    pub fn finished(&self, queued_samples: u64) -> (b: bool)
        ensures
            b == (self@.done && self@.audio_drained(queued_samples) && self@.queue.len() == 0
                && !self@.paused),
            b == self@.over(queued_samples),
            b && self@.audio is Some ==> queued_samples == 0,
            b ==> self@.done && self@.queue.len() == 0 && !self@.paused,
    {
        self.executor_done && self.audio_drained(queued_samples) && self.video_queue.len() == 0
            && !self.paused
    }

    /// The state as the overlay shows it.
    pub fn overlay_state(&self, raw: MediaTime) -> (o: OverlayState)
        requires
            self@.position(raw.nanos()) <= MAX_NANOS,
        ensures
            o.playing == !self@.paused,
            o.position.nanos() == self@.position(raw.nanos()),
            o.position.canonical(),
            o.duration == self@.duration,
            o.volume == self@.volume,
            o.muted == self@.muted,
            o.video_size == (match self@.video {
                Some(s) => match (s.params.width, s.params.height) {
                    (Some(w), Some(h)) => Some((w, h)),
                    _ => None,
                },
                None => None,
            }),
            o.codec_name == (match self@.video {
                Some(s) => Some(s.params.codec_id),
                None => match self@.audio {
                    Some(s) => Some(s.params.codec_id),
                    None => None,
                },
            }),
            o.seekable == self@.seekable,
    {
        let video_size = match &self.video_stream {
            Some(s) => match (s.params.width, s.params.height) {
                (Some(w), Some(h)) => Some((w, h)),
                _ => None,
            },
            None => None,
        };
        let codec_name = match &self.video_stream {
            Some(s) => Some(s.params.codec_id.clone()),
            None => match &self.audio_stream {
                Some(s) => Some(s.params.codec_id.clone()),
                None => None,
            },
        };
        OverlayState {
            playing: !self.paused,
            position: self.position(raw),
            duration: self.duration,
            volume: self.volume,
            muted: self.muted,
            video_size,
            codec_name,
            seekable: self.seek_supported,
        }
    }

    /// Where the streams stand on the timeline. A stream that has not started, or
    /// stands before zero, stands nowhere.
    pub fn timings(&self) -> (t: PlayerTimings)
        requires
            self.well_formed(),
        ensures
            t.audio is Some <==> self@.audio_end > 0,
            t.audio matches Some(m) ==> m.nanos() == self@.audio_end,
            t.video_decoded is Some <==> stream_instant(self@.video, self@.decoded_pts) is Some,
            t.video_decoded matches Some(m) ==> m.nanos() == stream_instant(
                self@.video,
                self@.decoded_pts,
            )->0,
            t.video_presented is Some <==> stream_instant(self@.video, self@.presented_pts) is Some,
            t.video_presented matches Some(m) ==> m.nanos() == stream_instant(
                self@.video,
                self@.presented_pts,
            )->0,
            t.video_queue_len == self@.queue.len(),
    {
        PlayerTimings {
            audio: if self.last_audio_end.is_zero() {
                None
            } else {
                Some(self.last_audio_end)
            },
            video_decoded: instant_on(&self.video_stream, self.last_video_pts),
            video_presented: instant_on(&self.video_stream, self.last_video_presented_pts),
            video_queue_len: self.video_queue.len(),
        }
    }
}

} // verus!
