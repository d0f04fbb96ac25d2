//! The sink between the executor and the player: what it logs, and what it says
//! when the player is gone.

use vstd::prelude::*;

use crate::text::{chars_of, push_decimal, push_signed, same};
#[allow(unused_imports)]
use crate::text::{decimal, signed_decimal};

verus! {

/// Messages that wait between the executor and the player, at most.
pub const FRAME_CAP: usize = 32;

/// Whether an environment variable of this value switches a feature on.
pub open spec fn switches_on(value: Option<&str>) -> bool {
    value matches Some(v) && v@ != ""@ && v@ != "0"@
}

/// Whether an environment variable of this value switches a feature on: it is
/// set, not empty and not `0`.
pub fn env_flag(value: Option<&str>) -> (on: bool)
    ensures
        on == switches_on(value),
{
    match value {
        Some(v) => {
            let text = chars_of(v);
            let empty = chars_of("");
            let zero = chars_of("0");
            !same(&text, &empty) && !same(&text, &zero)
        },
        None => false,
    }
}

/// The frame behind a lease, as far as the log shows it.
#[derive(Debug)]
pub enum LeaseInfo {
    Audio { samples: u32, pts: Option<i64> },
    Video { planes: usize, pts: Option<i64> },
    /// A frame in ordinary memory that is neither.
    OtherFrame,
    Hardware { backend: String, width: u32, height: u32, pts: Option<i64> },
    /// A picture in an arena; `format` is the name of its pixel format.
    Arena { format: String, width: u32, height: u32, pts: Option<i64> },
}

/// A timestamp in the log.
pub open spec fn pts_text(pts: Option<i64>) -> Seq<char> {
    match pts {
        Some(p) => "Some("@ + signed_decimal(p as int) + ")"@,
        None => "None"@,
    }
}

/// Whether the `n`th frame of a kind is logged: the first five, then every
/// fiftieth.
pub open spec fn is_logged(n: int) -> bool {
    n <= 5 || n % 50 == 0
}

/// The log's line on the `n`th frame of its kind.
pub open spec fn frame_line(n: int, frame: LeaseInfo) -> Seq<char> {
    match frame {
        LeaseInfo::Audio { samples, pts } => "[sink] audio frame #"@ + decimal(n as nat)
            + " samples="@ + decimal(samples as nat) + " pts="@ + pts_text(pts),
        LeaseInfo::Video { planes, pts } => "[sink] video frame #"@ + decimal(n as nat)
            + " planes="@ + decimal(planes as nat) + " pts="@ + pts_text(pts),
        LeaseInfo::Hardware { backend, width, height, pts } => "[sink] video frame #"@ + decimal(
            n as nat,
        ) + " hardware="@ + backend@ + " "@ + decimal(width as nat) + "x"@ + decimal(height as nat)
            + " pts="@ + pts_text(pts),
        LeaseInfo::Arena { format, width, height, pts } => "[sink] video frame #"@ + decimal(
            n as nat,
        ) + " arena="@ + format@ + " "@ + decimal(width as nat) + "x"@ + decimal(height as nat)
            + " pts="@ + pts_text(pts),
        LeaseInfo::OtherFrame => Seq::empty(),
    }
}

/// Whether a frame counts as audio.
pub open spec fn is_audio(frame: LeaseInfo) -> bool {
    frame is Audio
}

/// Whether a frame counts as video.
pub open spec fn is_video(frame: LeaseInfo) -> bool {
    frame is Video || frame is Hardware || frame is Arena
}

/// What the sink has seen, where it logs at all.
pub struct ChannelSink {
    pub debug: bool,
    pub seen_audio: usize,
    pub seen_video: usize,
}

/// Appends a timestamp.
fn push_pts(s: &mut String, pts: Option<i64>)
    ensures
        final(s)@ == old(s)@ + pts_text(pts),
{
    match pts {
        Some(p) => {
            s.append("Some(");
            push_signed(s, p);
            s.append(")");
        },
        None => s.append("None"),
    }
    assert(s@ == old(s)@ + pts_text(pts));
}

impl ChannelSink {
    /// A log that has seen nothing; `debug` is the value of the variable that
    /// switches it on.
    pub fn new(debug: Option<&str>) -> (l: Self)
        ensures
            l.debug == switches_on(debug),
            l.seen_audio == 0,
            l.seen_video == 0,
    {
        ChannelSink { debug: env_flag(debug), seen_audio: 0, seen_video: 0 }
    }

    /// The frames of its kind seen, with this one.
    pub open spec fn number(self, frame: LeaseInfo) -> int {
        if is_audio(frame) {
            self.seen_audio + 1
        } else {
            self.seen_video + 1
        }
    }

    /// Takes note of a frame. A line comes back where the frame is to be logged.
    pub fn on_frame(&mut self, frame: &LeaseInfo) -> (line: Option<String>)
        requires
            old(self).debug ==> old(self).seen_audio < usize::MAX && old(self).seen_video
                < usize::MAX,
        ensures
            final(self).debug == old(self).debug,
            final(self).seen_audio == old(self).seen_audio + (if old(self).debug && is_audio(
                *frame,
            ) {
                1int
            } else {
                0
            }),
            final(self).seen_video == old(self).seen_video + (if old(self).debug && is_video(
                *frame,
            ) {
                1int
            } else {
                0
            }),
            line is Some <==> old(self).debug && (is_audio(*frame) || is_video(*frame)) && is_logged(
                old(self).number(*frame),
            ),
            line matches Some(s) ==> s@ == frame_line(old(self).number(*frame), *frame),
    {
        if !self.debug {
            return None;
        }
        match frame {
            LeaseInfo::Audio { samples, pts } => {
                self.seen_audio = self.seen_audio + 1;
                let n: usize = self.seen_audio;
                if n > 5 && n % 50 != 0 {
                    return None;
                }
                let mut s = String::new();
                s.append("[sink] audio frame #");
                push_decimal(&mut s, n as u64);
                s.append(" samples=");
                push_decimal(&mut s, *samples as u64);
                s.append(" pts=");
                push_pts(&mut s, *pts);
                assert(s@ == frame_line(n as int, *frame));
                Some(s)
            },
            LeaseInfo::Video { planes, pts } => {
                self.seen_video = self.seen_video + 1;
                let n: usize = self.seen_video;
                if n > 5 && n % 50 != 0 {
                    return None;
                }
                let mut s = String::new();
                s.append("[sink] video frame #");
                push_decimal(&mut s, n as u64);
                s.append(" planes=");
                push_decimal(&mut s, *planes as u64);
                s.append(" pts=");
                push_pts(&mut s, *pts);
                assert(s@ == frame_line(n as int, *frame));
                Some(s)
            },
            LeaseInfo::OtherFrame => None,
            LeaseInfo::Hardware { backend, width, height, pts } => {
                self.seen_video = self.seen_video + 1;
                let n: usize = self.seen_video;
                if n > 5 && n % 50 != 0 {
                    return None;
                }
                let mut s = String::new();
                s.append("[sink] video frame #");
                push_decimal(&mut s, n as u64);
                s.append(" hardware=");
                s.append(backend.as_str());
                s.append(" ");
                push_decimal(&mut s, *width as u64);
                s.append("x");
                push_decimal(&mut s, *height as u64);
                s.append(" pts=");
                push_pts(&mut s, *pts);
                assert(s@ == frame_line(n as int, *frame));
                Some(s)
            },
            LeaseInfo::Arena { format, width, height, pts } => {
                self.seen_video = self.seen_video + 1;
                let n: usize = self.seen_video;
                if n > 5 && n % 50 != 0 {
                    return None;
                }
                let mut s = String::new();
                s.append("[sink] video frame #");
                push_decimal(&mut s, n as u64);
                s.append(" arena=");
                s.append(format.as_str());
                s.append(" ");
                push_decimal(&mut s, *width as u64);
                s.append("x");
                push_decimal(&mut s, *height as u64);
                s.append(" pts=");
                push_pts(&mut s, *pts);
                assert(s@ == frame_line(n as int, *frame));
                Some(s)
            },
        }
    }

    /// The line on the start, if the sink logs.
    pub fn on_start(&self, streams: usize) -> (line: Option<String>)
        ensures
            line is Some <==> self.debug,
            line matches Some(s) ==> s@ == "[sink] start: "@ + decimal(streams as nat)
                + " streams"@,
    {
        if !self.debug {
            return None;
        }
        let mut s = String::new();
        s.append("[sink] start: ");
        push_decimal(&mut s, streams as u64);
        s.append(" streams");
        Some(s)
    }

    /// The line on the end, if the sink logs.
    pub fn on_finish(&self) -> (line: Option<String>)
        ensures
            line is Some <==> self.debug,
            line matches Some(s) ==> s@ == "[sink] finish: total audio="@ + decimal(
                self.seen_audio as nat,
            ) + " video="@ + decimal(self.seen_video as nat),
    {
        if !self.debug {
            return None;
        }
        let mut s = String::new();
        s.append("[sink] finish: total audio=");
        push_decimal(&mut s, self.seen_audio as u64);
        s.append(" video=");
        push_decimal(&mut s, self.seen_video as u64);
        Some(s)
    }
}

/// What the executor asks of the sink.
#[derive(Clone, Copy, Debug, PartialEq, Eq, Structural)]
pub enum SinkOp {
    Start,
    Packet,
    Frame,
    Barrier,
    Finish,
}

/// Why the sink refuses.
#[derive(Clone, Copy, Debug, PartialEq, Eq, Structural)]
pub enum SinkError {
    GoneBeforeStart,
    Gone,
    GoneDuringBarrier,
    /// The player shows decoded frames only.
    NeedsFrames,
}

impl SinkError {
    /// The message for the executor.
    pub open spec fn message(self) -> Seq<char> {
        match self {
            SinkError::GoneBeforeStart => "oxideplay: engine receiver dropped before start"@,
            SinkError::Gone => "oxideplay: engine receiver dropped"@,
            SinkError::GoneDuringBarrier => "oxideplay: engine receiver dropped during barrier"@,
            SinkError::NeedsFrames =>
                "oxideplay: @display sink needs decoded frames; remove `codec` or set it to the source codec with a decoder"@,
        }
    }

    /// The message for the executor.
    pub fn text(self) -> (s: &'static str)
        ensures
            s@ == self.message(),
    {
        match self {
            SinkError::GoneBeforeStart => "oxideplay: engine receiver dropped before start",
            SinkError::Gone => "oxideplay: engine receiver dropped",
            SinkError::GoneDuringBarrier => "oxideplay: engine receiver dropped during barrier",
            SinkError::NeedsFrames => {
                "oxideplay: @display sink needs decoded frames; remove `codec` or set it to the source codec with a decoder"
            },
        }
    }
}

/// The answer to `op`, given whether the message reached the player.
pub open spec fn answered(op: SinkOp, delivered: bool) -> Result<(), SinkError> {
    match op {
        SinkOp::Packet => Err(SinkError::NeedsFrames),
        SinkOp::Finish => Ok(()),
        SinkOp::Start => if delivered {
            Ok(())
        } else {
            Err(SinkError::GoneBeforeStart)
        },
        SinkOp::Frame => if delivered {
            Ok(())
        } else {
            Err(SinkError::Gone)
        },
        SinkOp::Barrier => if delivered {
            Ok(())
        } else {
            Err(SinkError::GoneDuringBarrier)
        },
    }
}

/// The answer to `op`, given whether the message reached the player. Packets are
/// always refused. At the end a player that is gone does not matter, so that the
/// executor can wind down.
pub fn sink_reply(op: SinkOp, delivered: bool) -> (r: Result<(), SinkError>)
    ensures
        r == (match op {
            SinkOp::Packet => Err(SinkError::NeedsFrames),
            SinkOp::Finish => Ok(()),
            SinkOp::Start => if delivered {
                Ok(())
            } else {
                Err(SinkError::GoneBeforeStart)
            },
            SinkOp::Frame => if delivered {
                Ok(())
            } else {
                Err(SinkError::Gone)
            },
            SinkOp::Barrier => if delivered {
                Ok(())
            } else {
                Err(SinkError::GoneDuringBarrier)
            },
        }),
        r == answered(op, delivered),
{
    match op {
        SinkOp::Packet => Err(SinkError::NeedsFrames),
        SinkOp::Finish => Ok(()),
        SinkOp::Start => if delivered {
            Ok(())
        } else {
            Err(SinkError::GoneBeforeStart)
        },
        SinkOp::Frame => if delivered {
            Ok(())
        } else {
            Err(SinkError::Gone)
        },
        SinkOp::Barrier => if delivered {
            Ok(())
        } else {
            Err(SinkError::GoneDuringBarrier)
        },
    }
}

// ───────────────────── laws ─────────────────────

/// The first five frames of a kind are logged, and from then on one in fifty: of any fifty
/// that follow each other exactly one is.
pub proof fn law_the_log_thins_out(n: int)
    requires
        n >= 1,
    ensures
        n <= 5 ==> is_logged(n),
        n > 5 ==> exists|k: int| n <= k < n + 50 && #[trigger] is_logged(k),
        n > 5 ==> forall|j: int, k: int|
            n <= j < n + 50 && n <= k < n + 50 && #[trigger] is_logged(j) && #[trigger] is_logged(k)
                ==> j == k,
{
    if n > 5 {
        let k = if n % 50 == 0 {
            n
        } else {
            n + 50 - n % 50
        };
        assert(k % 50 == 0);
        assert(is_logged(k));
    }
}

/// A frame counts as what it is: as audio or as video, never as both, and what is neither
/// counts as neither. Each kind is numbered by itself.
pub proof fn law_frames_count_as_what_they_are(sink: ChannelSink, frame: LeaseInfo)
    ensures
        !(is_audio(frame) && is_video(frame)),
        !is_audio(frame) && !is_video(frame) <==> frame is OtherFrame,
        is_audio(frame) <==> frame is Audio,
        is_audio(frame) ==> sink.number(frame) == sink.seen_audio + 1,
        is_video(frame) ==> sink.number(frame) == sink.seen_video + 1,
{
}

/// The player is told of packets that it cannot show them, whether it is there or not. A
/// player that is gone is an error in the midst of playback and none at its end.
pub proof fn law_the_sink_answers_for_the_player(op: SinkOp, delivered: bool)
    ensures
        op is Packet ==> answered(op, delivered) == Err::<(), SinkError>(SinkError::NeedsFrames),
        op is Finish ==> answered(op, delivered) is Ok,
        op !is Packet && op !is Finish ==> (answered(op, delivered) is Ok <==> delivered),
        op !is Packet ==> answered(op, delivered) != Err::<(), SinkError>(SinkError::NeedsFrames),
{
}

} // verus!
