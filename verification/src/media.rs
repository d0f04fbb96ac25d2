//! The stream and frame descriptions that the player reads.
//!
//! Frames carry their pixels or samples as an opaque handle: the player moves
//! handles about and never looks inside one.

use vstd::prelude::*;

use crate::clock::{MediaTime, TimeBase};

verus! {

/// What a stream carries.
#[derive(Clone, Copy, Debug, PartialEq, Eq, Structural)]
pub enum MediaType {
    Audio,
    Video,
    Subtitle,
    Data,
    Unknown,
}

/// How a video frame's pixels are laid out. The player draws planar 4:2:0
/// itself and has every other layout converted first.
#[derive(Clone, Copy, Debug, PartialEq, Eq, Structural)]
pub enum PixelFormat {
    Yuv420P,
    Gray8,
    /// Any other, by a number that the caller gave it.
    Other(u32),
}

/// The stream-level shape of the decoded media.
#[derive(Debug)]
pub struct CodecParameters {
    pub media_type: MediaType,
    pub codec_id: String,
    pub sample_rate: Option<u32>,
    pub channels: Option<u16>,
    pub pixel_format: Option<PixelFormat>,
    pub width: Option<u32>,
    pub height: Option<u32>,
}

impl CodecParameters {
    /// A copy of the parameters.
    pub fn duplicate(&self) -> (p: CodecParameters)
        ensures
            p == *self,
    {
        CodecParameters {
            media_type: self.media_type,
            codec_id: self.codec_id.clone(),
            sample_rate: self.sample_rate,
            channels: self.channels,
            pixel_format: self.pixel_format,
            width: self.width,
            height: self.height,
        }
    }
}

/// One stream of the source.
#[derive(Debug)]
pub struct StreamInfo {
    pub index: u32,
    pub time_base: TimeBase,
    pub duration: Option<i64>,
    pub start_time: Option<i64>,
    pub params: CodecParameters,
}

impl StreamInfo {
    /// A copy of the stream's description.
    pub fn duplicate(&self) -> (s: StreamInfo)
        ensures
            s == *self,
    {
        StreamInfo {
            index: self.index,
            time_base: self.time_base,
            duration: self.duration,
            start_time: self.start_time,
            params: self.params.duplicate(),
        }
    }
}

/// The first stream that carries `kind`.
pub open spec fn first_of_kind(streams: Seq<StreamInfo>, kind: MediaType) -> Option<StreamInfo>
    decreases streams.len(),
{
    if streams.len() == 0 {
        None
    } else if streams[0].params.media_type == kind {
        Some(streams[0])
    } else {
        first_of_kind(streams.drop_first(), kind)
    }
}

/// The first of `streams` that carries `kind`.
pub fn find_stream(streams: &[StreamInfo], kind: MediaType) -> (s: Option<StreamInfo>)
    ensures
        s == first_of_kind(streams@, kind),
{
    let mut i: usize = 0;
    assert(streams@.skip(0) =~= streams@);
    while i < streams.len()
        invariant
            i <= streams@.len(),
            first_of_kind(streams@, kind) == first_of_kind(streams@.skip(i as int), kind),
        decreases streams@.len() - i,
    {
        if streams[i].params.media_type == kind {
            return Some(streams[i].duplicate());
        }
        assert(streams@.skip(i as int).drop_first() =~= streams@.skip(i + 1));
        i += 1;
    }
    None
}

/// A decoded audio frame: `samples` samples per channel behind the handle
/// `data`.
#[derive(Debug)]
pub struct AudioFrame<A> {
    pub pts: Option<i64>,
    pub samples: u32,
    pub data: A,
}

/// A decoded video frame behind the handle `data`.
#[derive(Debug)]
pub struct VideoFrame<V> {
    pub pts: Option<i64>,
    pub data: V,
}

/// A decoded frame.
#[derive(Debug)]
pub enum Frame<A, V> {
    Audio(AudioFrame<A>),
    Video(VideoFrame<V>),
    Other,
}

/// A flow barrier in the frame stream.
#[derive(Clone, Copy, Debug, PartialEq, Eq, Structural)]
pub enum BarrierKind {
    /// The source has sought: what follows is on the new timeline, which starts
    /// at `landed_pts`.
    SeekFlush { generation: u32, landed_pts: i64, time_base: TimeBase },
    /// The source cannot seek: what follows is still on the old timeline.
    SeekRejected { generation: u32 },
}

/// What the executor's sink tells the player.
#[derive(Debug)]
pub enum EngineMsg<A, V> {
    /// The streams are known. Always the first message.
    Started(Vec<StreamInfo>),
    /// One decoded frame.
    Frame { kind: MediaType, frame: Frame<A, V> },
    /// A flow barrier.
    Barrier(BarrierKind),
    /// No more messages follow.
    Finished,
}

/// Direction for relative seeks.
#[derive(Clone, Copy, Debug, PartialEq, Eq, Structural)]
pub enum SeekDir {
    Forward,
    Back,
}

/// A user action, from any input surface.
///
/// Volumes are in units of which [`crate::engine::VOLUME_UNITY`] make unity
/// gain.
#[derive(Clone, Copy, Debug, PartialEq, Eq, Structural)]
pub enum PlayerEvent {
    /// Quit the player.
    Quit,
    /// Toggle paused / playing.
    TogglePause,
    /// Seek forward or backward by a span.
    SeekRelative(MediaTime, SeekDir),
    /// Nudge the volume up or down, in percentage points.
    VolumeDelta(i32),
    /// Seek to an instant of the timeline.
    SeekAbsolute(MediaTime),
    /// Set the output volume.
    SetVolume(u32),
    /// Toggle the muted state.
    ToggleMute,
}

/// The player's state as the on-screen overlay shows it.
#[derive(Debug)]
pub struct OverlayState {
    pub playing: bool,
    pub position: MediaTime,
    pub duration: Option<MediaTime>,
    pub volume: u32,
    pub muted: bool,
    pub video_size: Option<(u32, u32)>,
    pub codec_name: Option<String>,
    pub seekable: bool,
}

/// What the system's Now Playing widget shows.
#[derive(Clone, Copy, Debug, PartialEq, Eq, Structural)]
pub enum PlaybackState {
    Playing,
    Paused,
}

/// A command from the system's media keys or Now Playing widget. A seek target
/// is in nanoseconds from the start of the timeline.
#[derive(Clone, Copy, Debug, PartialEq, Eq, Structural)]
pub enum MediaCommand {
    Play,
    Pause,
    TogglePlayPause,
    Seek(i128),
    Next,
    Previous,
}

// ───────────────────── laws ─────────────────────

/// Of each kind the first stream plays: none before it carries that kind. There is none
/// only where no stream carries it.
pub proof fn law_the_first_of_a_kind_plays(streams: Seq<StreamInfo>, kind: MediaType)
    ensures
        first_of_kind(streams, kind) is None <==> forall|i: int|
            0 <= i < streams.len() ==> (#[trigger] streams[i]).params.media_type != kind,
        first_of_kind(streams, kind) matches Some(s) ==> exists|i: int|
            {
                &&& 0 <= i < streams.len()
                &&& #[trigger] streams[i] == s
                &&& s.params.media_type == kind
                &&& forall|j: int| 0 <= j < i ==> (#[trigger] streams[j]).params.media_type != kind
            },
    decreases streams.len(),
{
    if streams.len() > 0 && streams[0].params.media_type != kind {
        let rest = streams.drop_first();
        law_the_first_of_a_kind_plays(rest, kind);
        assert forall|i: int| 0 <= i < rest.len() implies rest[i] == streams[i + 1] by {}
        match first_of_kind(rest, kind) {
            Some(s) => {
                let i = choose|i: int|
                    {
                        &&& 0 <= i < rest.len()
                        &&& #[trigger] rest[i] == s
                        &&& s.params.media_type == kind
                        &&& forall|j: int|
                            0 <= j < i ==> (#[trigger] rest[j]).params.media_type != kind
                    };
                assert(streams[i + 1] == s);
                assert forall|j: int| 0 <= j < i + 1 implies (
                #[trigger] streams[j]).params.media_type != kind by {
                    if j > 0 {
                        assert(rest[j - 1] == streams[j]);
                    }
                }
            },
            None => {
                assert forall|j: int| 0 <= j < streams.len() implies (
                #[trigger] streams[j]).params.media_type != kind by {
                    if j > 0 {
                        assert(rest[j - 1] == streams[j]);
                    }
                }
            },
        }
    } else if streams.len() > 0 {
        assert(streams[0] == first_of_kind(streams, kind)->0);
    }
}

} // verus!
