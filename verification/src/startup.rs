//! From the source's streams to the first frame: waiting for the streams, sizing
//! the drivers, and what is printed on the way.

use vstd::prelude::*;

use crate::clock::{MediaTime, Side, TimeBase};
use crate::media::{EngineMsg, MediaType, StreamInfo};
use crate::text::{add_line, push_decimal};
use crate::uri::filename_stem_from_uri;
#[allow(unused_imports)]
use crate::text::{decimal, texts};
#[allow(unused_imports)]
use crate::uri::uri_stem;

verus! {

// ───────────────────── waiting for the streams ─────────────────────

/// How long the player waits for the streams, in seconds.
pub const START_TIMEOUT_SECS: u64 = 30;

/// Why the streams never came.
#[derive(Clone, Copy, Debug, PartialEq, Eq, Structural)]
pub enum StartError {
    TimedOut,
    Finished,
    Exited,
    /// A frame or a barrier came before the streams.
    OutOfTurn,
}

impl StartError {
    /// The message for the user.
    pub open spec fn message(self) -> Seq<char> {
        match self {
            StartError::TimedOut =>
                "oxideplay: timed out waiting for executor to report streams"@,
            StartError::Finished => "oxideplay: executor finished before producing streams"@,
            StartError::Exited => "oxideplay: executor exited before reporting streams"@,
            StartError::OutOfTurn =>
                "oxideplay: executor sent something else before reporting streams"@,
        }
    }

    /// The message for the user.
    pub fn text(self) -> (s: &'static str)
        ensures
            s@ == self.message(),
    {
        match self {
            StartError::TimedOut => "oxideplay: timed out waiting for executor to report streams",
            StartError::Finished => "oxideplay: executor finished before producing streams",
            StartError::Exited => "oxideplay: executor exited before reporting streams",
            StartError::OutOfTurn => {
                "oxideplay: executor sent something else before reporting streams"
            },
        }
    }
}

/// What the wait for a message gave.
#[derive(Debug)]
pub enum StartEvent<A, V> {
    Message(EngineMsg<A, V>),
    /// No message came in time.
    Timeout,
    /// No message will come.
    Disconnected,
}

/// How long to wait for the next message when `remaining` nanoseconds are left of the
/// whole wait.
pub open spec fn wait_step(remaining: int) -> int {
    if remaining < 1_000_000_000 {
        remaining
    } else {
        1_000_000_000
    }
}

/// How long to wait for the next message when `remaining` is left of the whole
/// wait: a second at most.
pub fn next_wait(remaining: MediaTime) -> (r: Result<MediaTime, StartError>)
    ensures
        remaining.nanos() == 0 <==> r == Err::<MediaTime, StartError>(StartError::TimedOut),
        r is Err ==> r == Err::<MediaTime, StartError>(StartError::TimedOut),
        r matches Ok(t) ==> t.nanos() == (if remaining.nanos() < 1_000_000_000 {
            remaining.nanos()
        } else {
            1_000_000_000
        }),
        r matches Ok(t) ==> t.nanos() == wait_step(remaining.nanos()),
{
    if remaining.is_zero() {
        return Err(StartError::TimedOut);
    }
    let second = MediaTime::from_secs(1);
    if remaining.at_most(&second) {
        Ok(remaining)
    } else {
        Ok(second)
    }
}

/// What `ev` says of the streams: the streams, that they will not come, or
/// (`None`) nothing yet. The first message must be the streams: any other breaks the
/// sink's protocol.
pub fn on_start_event<A, V>(ev: StartEvent<A, V>) -> (r: Result<Option<Vec<StreamInfo>>, StartError>)
    ensures
        r == (match ev {
            StartEvent::Message(EngineMsg::Started(streams)) => Ok(Some(streams)),
            StartEvent::Message(EngineMsg::Finished) => Err(StartError::Finished),
            StartEvent::Message(_) => Err(StartError::OutOfTurn),
            StartEvent::Disconnected => Err(StartError::Exited),
            StartEvent::Timeout => Ok(None),
        }),
{
    match ev {
        StartEvent::Message(EngineMsg::Started(streams)) => Ok(Some(streams)),
        StartEvent::Message(EngineMsg::Finished) => Err(StartError::Finished),
        StartEvent::Message(_) => Err(StartError::OutOfTurn),
        StartEvent::Disconnected => Err(StartError::Exited),
        StartEvent::Timeout => Ok(None),
    }
}

// ───────────────────── sizing the drivers ─────────────────────

/// `x`, or `default` for none.
pub open spec fn or_u32(x: Option<u32>, default: u32) -> u32 {
    match x {
        Some(v) => v,
        None => default,
    }
}

/// `x`, or `default` for none.
pub open spec fn or_u16(x: Option<u16>, default: u16) -> u16 {
    match x {
        Some(v) => v,
        None => default,
    }
}

/// The sample rate and channel count of the last audio stream, where it does not
/// say of 48 kHz and two channels; the same without an audio stream.
pub open spec fn audio_shape(streams: Seq<StreamInfo>) -> (u32, u16)
    decreases streams.len(),
{
    if streams.len() == 0 {
        (48_000, 2)
    } else if streams.last().params.media_type == MediaType::Audio {
        (
            or_u32(streams.last().params.sample_rate, 48_000),
            or_u16(streams.last().params.channels, 2),
        )
    } else {
        audio_shape(streams.drop_last())
    }
}

/// The dimensions of the last video stream that states both.
pub open spec fn video_shape(streams: Seq<StreamInfo>) -> Option<(u32, u32)>
    decreases streams.len(),
{
    if streams.len() == 0 {
        None
    } else {
        let p = streams.last().params;
        if p.media_type == MediaType::Video && p.width is Some && p.height is Some {
            Some((p.width->0, p.height->0))
        } else {
            video_shape(streams.drop_last())
        }
    }
}

/// The sample rate, the channel count and the video dimensions to open the
/// drivers with. Without video there are no dimensions.
pub fn derive_driver_params(streams: &[StreamInfo], want_video: bool) -> (r: (
    u32,
    u16,
    Option<(u32, u32)>,
))
    ensures
        (r.0, r.1) == audio_shape(streams@),
        r.2 == (if want_video {
            video_shape(streams@)
        } else {
            None
        }),
{
    let mut sr: u32 = 48_000;
    let mut ch: u16 = 2;
    let mut dims: Option<(u32, u32)> = None;
    let mut i: usize = 0;
    while i < streams.len()
        invariant
            i <= streams@.len(),
            (sr, ch) == audio_shape(streams@.take(i as int)),
            dims == video_shape(streams@.take(i as int)),
        decreases streams@.len() - i,
    {
        assert(streams@.take(i + 1).drop_last() == streams@.take(i as int));
        let p = &streams[i].params;
        match p.media_type {
            MediaType::Audio => {
                sr = match p.sample_rate {
                    Some(r) => r,
                    None => 48_000,
                };
                ch = match p.channels {
                    Some(c) => c,
                    None => 2,
                };
            },
            MediaType::Video => {
                if let (Some(w), Some(h)) = (p.width, p.height) {
                    dims = Some((w, h));
                }
            },
            _ => {},
        }
        i += 1;
    }
    assert(streams@.take(streams@.len() as int) == streams@);
    if !want_video {
        dims = None;
    }
    (sr, ch, dims)
}

/// The duration of the first stream of kind `kind` that declares one, with its
/// time base.
pub open spec fn first_duration(streams: Seq<StreamInfo>, kind: MediaType) -> Option<
    (TimeBase, i64),
>
    decreases streams.len(),
{
    if streams.len() == 0 {
        None
    } else if streams[0].params.media_type == kind && streams[0].duration is Some {
        Some((streams[0].time_base, streams[0].duration->0))
    } else {
        first_duration(streams.drop_first(), kind)
    }
}

/// The duration that the streams declare: audio first, then video.
pub open spec fn declared_duration(streams: Seq<StreamInfo>) -> Option<(TimeBase, i64)> {
    match first_duration(streams, MediaType::Audio) {
        Some(d) => Some(d),
        None => first_duration(streams, MediaType::Video),
    }
}

/// The length of a declared duration; one that is not positive is no length.
pub open spec fn duration_nanos(d: (TimeBase, i64)) -> int {
    if d.0.defined() && d.0.instant_sign(d.1 as int) > 0 {
        d.0.instant_nanos(d.1 as int)
    } else {
        0
    }
}

/// The duration of the first stream of kind `kind` that declares one.
fn find_duration(streams: &[StreamInfo], kind: MediaType) -> (d: Option<(TimeBase, i64)>)
    ensures
        d == first_duration(streams@, kind),
{
    let mut i: usize = 0;
    assert(streams@.skip(0) == streams@);
    while i < streams.len()
        invariant
            i <= streams@.len(),
            first_duration(streams@, kind) == first_duration(streams@.skip(i as int), kind),
        decreases streams@.len() - i,
    {
        assert(streams@.skip(i as int).drop_first() == streams@.skip(i + 1));
        if streams[i].params.media_type == kind {
            if let Some(d) = streams[i].duration {
                return Some((streams[i].time_base, d));
            }
        }
        i += 1;
    }
    None
}

/// The duration that the streams declare.
fn find_declared(streams: &[StreamInfo]) -> (d: Option<(TimeBase, i64)>)
    ensures
        d == declared_duration(streams@),
{
    match find_duration(streams, MediaType::Audio) {
        Some(d) => Some(d),
        None => find_duration(streams, MediaType::Video),
    }
}

/// Whether the source's duration is one that a time can hold.
pub fn duration_fits(streams: &[StreamInfo]) -> (b: bool)
    ensures
        b == (declared_duration(streams@) matches Some(d) ==> !d.0.beyond(d.1 as int)),
{
    match find_declared(streams) {
        Some((time_base, ticks)) => !time_base.is_beyond(ticks),
        None => true,
    }
}

/// The source's duration: that of the audio, else that of the video, if one
/// declares it.
pub fn derive_duration(streams: &[StreamInfo]) -> (d: Option<MediaTime>)
    requires
        declared_duration(streams@) matches Some(d) ==> !d.0.beyond(d.1 as int),
    ensures
        d is Some <==> declared_duration(streams@) is Some,
        d matches Some(t) ==> t.nanos() == duration_nanos(declared_duration(streams@)->0)
            && t.canonical(),
{
    match find_declared(streams) {
        Some((time_base, ticks)) => match time_base.side(ticks) {
            Side::After => match time_base.time_of(ticks) {
                Some(t) => Some(t),
                None => Some(MediaTime::zero()),
            },
            _ => Some(MediaTime::zero()),
        },
        None => None,
    }
}

/// What is known of the track.
#[derive(Debug)]
pub struct TrackInfo {
    pub title: Option<String>,
    pub duration: Option<MediaTime>,
}

/// What is known of the track at `uri`: what its container says (`found`), as far as it
/// could be opened. Where nothing gives a title, it is the one that the URI suggests. The
/// player never fails for want of a title.
pub fn extract_track_info(uri: &str, duration: Option<MediaTime>, found: Option<TrackInfo>) -> (t:
    TrackInfo)
    ensures
        t.duration == (match found {
            Some(f) => f.duration,
            None => duration,
        }),
        found matches Some(f) ==> f.title is Some ==> t.title == f.title,
        found is None || found->0.title is None ==> {
            &&& t.title is Some <==> uri_stem(uri@) is Some
            &&& t.title matches Some(s) ==> s@ == uri_stem(uri@)->0
        },
        t.title is None ==> uri_stem(uri@) is None,
{
    match found {
        Some(TrackInfo { title: Some(title), duration }) => TrackInfo {
            title: Some(title),
            duration,
        },
        Some(TrackInfo { title: None, duration }) => TrackInfo {
            title: filename_stem_from_uri(uri),
            duration,
        },
        None => TrackInfo { title: filename_stem_from_uri(uri), duration },
    }
}

// ───────────────────── laws ─────────────────────

/// The wait for the streams goes on in steps of a second at most, none longer than what is
/// left, and ends only when nothing is left.
pub proof fn law_waits_use_up_what_is_left(remaining: MediaTime)
    ensures
        ({
            let step = wait_step(remaining.nanos());
            &&& step == 0 <==> remaining.nanos() == 0
            &&& 0 <= step <= remaining.nanos()
            &&& step <= 1_000_000_000
            &&& step < remaining.nanos() ==> step == 1_000_000_000
        }),
{
}

/// The drivers are opened for the last audio stream, with what it does not say filled in:
/// streams behind it change nothing, and those before it do not count.
pub proof fn law_the_last_audio_stream_shapes_the_driver(
    before: Seq<StreamInfo>,
    s: StreamInfo,
    behind: Seq<StreamInfo>,
)
    requires
        s.params.media_type == MediaType::Audio,
        forall|i: int|
            0 <= i < behind.len() ==> (#[trigger] behind[i]).params.media_type != MediaType::Audio,
    ensures
        ({
            let (rate, channels) = audio_shape(before.push(s) + behind);
            &&& s.params.sample_rate matches Some(r) ==> rate == r
            &&& s.params.sample_rate is None ==> rate == 48_000
            &&& s.params.channels matches Some(c) ==> channels == c
            &&& s.params.channels is None ==> channels == 2
        }),
        audio_shape(behind) == (48_000u32, 2u16),
    decreases behind.len(),
{
    if behind.len() > 0 {
        let front = behind.drop_last();
        assert forall|i: int| 0 <= i < front.len() implies (
        #[trigger] front[i]).params.media_type != MediaType::Audio by {
            assert(front[i] == behind[i]);
        }
        law_the_last_audio_stream_shapes_the_driver(before, s, front);
        let all = before.push(s) + behind;
        assert(all.drop_last() =~= before.push(s) + front);
        assert(all.last() == behind[behind.len() - 1]);
        assert(behind.last() == behind[behind.len() - 1]);
    } else {
        assert(before.push(s) + behind =~= before.push(s));
        assert(before.push(s).last() == s);
    }
}

/// The window is sized for the last video stream that says how large it is: streams behind
/// it that do not say so change nothing.
pub proof fn law_the_last_video_size_sizes_the_window(
    before: Seq<StreamInfo>,
    s: StreamInfo,
    behind: Seq<StreamInfo>,
    w: u32,
    h: u32,
)
    requires
        s.params.media_type == MediaType::Video,
        s.params.width == Some(w),
        s.params.height == Some(h),
        forall|i: int|
            0 <= i < behind.len() ==> {
                let p = (#[trigger] behind[i]).params;
                p.media_type != MediaType::Video || p.width is None || p.height is None
            },
    ensures
        video_shape(before.push(s) + behind) == Some((w, h)),
        video_shape(behind) is None,
    decreases behind.len(),
{
    if behind.len() > 0 {
        let front = behind.drop_last();
        assert forall|i: int| 0 <= i < front.len() implies {
            let p = (#[trigger] front[i]).params;
            p.media_type != MediaType::Video || p.width is None || p.height is None
        } by {
            assert(front[i] == behind[i]);
        }
        law_the_last_video_size_sizes_the_window(before, s, front, w, h);
        let all = before.push(s) + behind;
        assert(all.drop_last() =~= before.push(s) + front);
        assert(all.last() == behind[behind.len() - 1]);
        assert(behind.last() == behind[behind.len() - 1]);
    } else {
        assert(before.push(s) + behind =~= before.push(s));
        assert(before.push(s).last() == s);
    }
}

/// Whether a stream of kind `kind` declares a duration.
pub open spec fn declares(s: StreamInfo, kind: MediaType) -> bool {
    s.params.media_type == kind && s.duration is Some
}

/// The first stream of a kind that declares a duration gives it, with its own time base.
pub proof fn law_the_first_declared_duration_counts(
    before: Seq<StreamInfo>,
    s: StreamInfo,
    behind: Seq<StreamInfo>,
    kind: MediaType,
)
    requires
        declares(s, kind),
        forall|i: int| 0 <= i < before.len() ==> !declares(#[trigger] before[i], kind),
    ensures
        first_duration(before.push(s) + behind, kind) == Some((s.time_base, s.duration->0)),
        first_duration(before, kind) is None,
    decreases before.len(),
{
    let all = before.push(s) + behind;
    if before.len() > 0 {
        let rest = before.drop_first();
        assert forall|i: int| 0 <= i < rest.len() implies !declares(#[trigger] rest[i], kind) by {
            assert(rest[i] == before[i + 1]);
        }
        law_the_first_declared_duration_counts(rest, s, behind, kind);
        assert(all.drop_first() =~= rest.push(s) + behind);
        assert(all[0] == before[0]);
    } else {
        assert(all[0] == s);
    }
}

/// The duration is the audio's where an audio stream declares one, whatever the video
/// says, and the video's otherwise. It is as long as its ticks make it; one that is not
/// positive is none.
pub proof fn law_the_audio_tells_the_duration(streams: Seq<StreamInfo>, d: (TimeBase, i64))
    ensures
        first_duration(streams, MediaType::Audio) == Some(d) ==> declared_duration(streams)
            == Some(d),
        first_duration(streams, MediaType::Audio) is None ==> declared_duration(streams)
            == first_duration(streams, MediaType::Video),
        d.1 * d.0.num * d.0.den > 0 ==> duration_nanos(d) == d.0.instant_nanos(d.1 as int),
        d.1 * d.0.num * d.0.den <= 0 ==> duration_nanos(d) == 0,
{
    let x = d.1 * d.0.num;
    let den = d.0.den as int;
    assert(den > 0 ==> (x * den > 0 <==> x > 0)) by (nonlinear_arith);
    assert(den < 0 ==> (x * den > 0 <==> x < 0)) by (nonlinear_arith);
    assert(den == 0 ==> x * den == 0) by (nonlinear_arith);
}

/// The status block has a line for each stream that plays, in the order of the streams,
/// between its heading and the two drivers; so has the report of a dry run behind its two
/// headings.
pub proof fn law_each_stream_that_plays_has_a_line(
    before: Seq<StreamInfo>,
    s: StreamInfo,
    vo: Option<String>,
    ao: Option<String>,
    input: Seq<char>,
    format: Seq<char>,
)
    ensures
        status_block(before, vo, ao).len() == 3 + streams_status(before).len(),
        status_block(before, vo, ao).subrange(1, 1 + streams_status(before).len() as int)
            == streams_status(before),
        probe_report(input, format, before.push(s)).len() == 2 + streams_report(
            before.push(s),
        ).len(),
        probe_report(input, format, before.push(s)).skip(2) == streams_report(before.push(s)),
        streams_status(before.push(s)).len() == streams_status(before).len() + (if s.params.media_type
            == MediaType::Audio || s.params.media_type == MediaType::Video {
            1nat
        } else {
            0
        }),
        streams_status(before).is_prefix_of(streams_status(before.push(s))),
        streams_report(before.push(s)).len() == streams_report(before).len() + (if s.params.media_type
            == MediaType::Audio || s.params.media_type == MediaType::Video {
            1nat
        } else {
            0
        }),
        streams_report(before).is_prefix_of(streams_report(before.push(s))),
{
    let all = before.push(s);
    assert(all.drop_last() =~= before);
    assert(all.last() == s);
    let a = streams_status(before);
    let b = streams_report(before);
    assert(status_block(before, vo, ao).subrange(1, 1 + a.len() as int) =~= a);
    assert(probe_report(input, format, all).skip(2) =~= streams_report(all));
    assert(a =~= (a + stream_status(s)).subrange(0, a.len() as int));
    assert(b =~= (b + stream_report(s)).subrange(0, b.len() as int));
}

// ───────────────────── what is printed ─────────────────────

/// `w` by `h`.
pub open spec fn size_text(w: Option<u32>, h: Option<u32>) -> Seq<char> {
    decimal(or_u32(w, 0) as nat) + "x"@ + decimal(or_u32(h, 0) as nat)
}

/// The status block's line on a stream; none on a stream that is not played.
pub open spec fn stream_status(s: StreamInfo) -> Seq<Seq<char>> {
    let p = s.params;
    match p.media_type {
        MediaType::Audio => seq![
            "  audio: "@ + p.codec_id@ + " "@ + decimal(or_u16(p.channels, 0) as nat) + "ch @ "@
                + decimal(or_u32(p.sample_rate, 0) as nat) + " Hz"@,
        ],
        MediaType::Video => seq![
            "  video: "@ + p.codec_id@ + " "@ + size_text(p.width, p.height),
        ],
        _ => seq![],
    }
}

/// The status block's lines on `streams`.
pub open spec fn streams_status(streams: Seq<StreamInfo>) -> Seq<Seq<char>>
    decreases streams.len(),
{
    if streams.len() == 0 {
        Seq::empty()
    } else {
        streams_status(streams.drop_last()) + stream_status(streams.last())
    }
}

/// The status block's line on a driver.
pub open spec fn driver_status(
    label: Seq<char>,
    info: Option<String>,
    disabled: Seq<char>,
) -> Seq<char> {
    match info {
        Some(s) => label + s@,
        None => label + disabled,
    }
}

/// The status block.
pub open spec fn status_block(
    streams: Seq<StreamInfo>,
    vo: Option<String>,
    ao: Option<String>,
) -> Seq<Seq<char>> {
    seq!["oxideplay: playing "@ + decimal(streams.len()) + " stream(s)"@] + streams_status(streams)
        + seq![
        driver_status("  vo: "@, vo, "null (video disabled)"@),
        driver_status("  ao: "@, ao, "null (audio disabled)"@),
    ]
}

/// Appends `w` by `h`.
fn push_size(s: &mut String, w: Option<u32>, h: Option<u32>)
    ensures
        final(s)@ == old(s)@ + size_text(w, h),
{
    push_decimal(
        s,
        match w {
            Some(w) => w as u64,
            None => 0,
        },
    );
    s.append("x");
    push_decimal(
        s,
        match h {
            Some(h) => h as u64,
            None => 0,
        },
    );
    assert(s@ == old(s)@ + size_text(w, h));
}

/// Appends the status block's line on a driver.
fn add_driver_status(lines: &mut Vec<String>, label: &str, info: &Option<String>, disabled: &str)
    ensures
        texts(final(lines)@) == texts(old(lines)@).push(driver_status(label@, *info, disabled@)),
{
    let mut line = String::new();
    line.append(label);
    match info {
        Some(s) => line.append(s.as_str()),
        None => line.append(disabled),
    }
    assert(line@ == driver_status(label@, *info, disabled@));
    add_line(lines, line);
}

/// The block that is printed before the first frame: the streams, and the drivers
/// `vo` and `ao` as they describe themselves.
pub fn status_lines(streams: &[StreamInfo], vo: &Option<String>, ao: &Option<String>) -> (lines:
    Vec<String>)
    ensures
        texts(lines@) == status_block(streams@, *vo, *ao),
{
    let mut lines: Vec<String> = Vec::new();
    assert(texts(lines@) == Seq::<Seq<char>>::empty());
    let mut line = String::new();
    line.append("oxideplay: playing ");
    push_decimal(&mut line, streams.len() as u64);
    line.append(" stream(s)");
    let ghost head = seq!["oxideplay: playing "@ + decimal(streams@.len()) + " stream(s)"@];
    assert(line@ == head[0]);
    add_line(&mut lines, line);
    let mut i: usize = 0;
    assert(texts(lines@) == head + streams_status(streams@.take(0)));
    while i < streams.len()
        invariant
            i <= streams@.len(),
            texts(lines@) == head + streams_status(streams@.take(i as int)),
        decreases streams@.len() - i,
    {
        let ghost before = texts(lines@);
        let p = &streams[i].params;
        match p.media_type {
            MediaType::Audio => {
                let mut line = String::new();
                line.append("  audio: ");
                line.append(p.codec_id.as_str());
                line.append(" ");
                push_decimal(
                    &mut line,
                    match p.channels {
                        Some(c) => c as u64,
                        None => 0,
                    },
                );
                line.append("ch @ ");
                push_decimal(
                    &mut line,
                    match p.sample_rate {
                        Some(r) => r as u64,
                        None => 0,
                    },
                );
                line.append(" Hz");
                assert(line@ == stream_status(streams@[i as int])[0]);
                add_line(&mut lines, line);
            },
            MediaType::Video => {
                let mut line = String::new();
                line.append("  video: ");
                line.append(p.codec_id.as_str());
                line.append(" ");
                push_size(&mut line, p.width, p.height);
                assert(line@ == stream_status(streams@[i as int])[0]);
                add_line(&mut lines, line);
            },
            _ => {},
        }
        assert(texts(lines@) == before + stream_status(streams@[i as int]));
        assert(streams@.take(i + 1).drop_last() == streams@.take(i as int));
        i += 1;
        assert(texts(lines@) == head + streams_status(streams@.take(i as int)));
    }
    assert(streams@.take(streams@.len() as int) == streams@);
    add_driver_status(&mut lines, "  vo: ", vo, "null (video disabled)");
    add_driver_status(&mut lines, "  ao: ", ao, "null (audio disabled)");
    assert(texts(lines@) == status_block(streams@, *vo, *ao));
    lines
}

/// The dry run's line on a stream; none on a stream that is not played.
pub open spec fn stream_report(s: StreamInfo) -> Seq<Seq<char>> {
    let p = s.params;
    match p.media_type {
        MediaType::Audio => seq![
            "Audio: stream #"@ + decimal(s.index as nat) + " codec="@ + p.codec_id@ + " channels="@
                + decimal(or_u16(p.channels, 0) as nat) + " rate="@ + decimal(
                or_u32(p.sample_rate, 0) as nat,
            ),
        ],
        MediaType::Video => seq![
            "Video: stream #"@ + decimal(s.index as nat) + " codec="@ + p.codec_id@ + " "@
                + size_text(p.width, p.height),
        ],
        _ => seq![],
    }
}

/// The dry run's lines on `streams`.
pub open spec fn streams_report(streams: Seq<StreamInfo>) -> Seq<Seq<char>>
    decreases streams.len(),
{
    if streams.len() == 0 {
        Seq::empty()
    } else {
        streams_report(streams.drop_last()) + stream_report(streams.last())
    }
}

/// What a dry run prints.
pub open spec fn probe_report(
    input: Seq<char>,
    format: Seq<char>,
    streams: Seq<StreamInfo>,
) -> Seq<Seq<char>> {
    seq!["Input: "@ + input, "Format: "@ + format] + streams_report(streams) + (if streams.len()
        == 0 {
        seq!["(no streams)"@]
    } else {
        seq![]
    })
}

/// What a dry run prints of the source `input`, in the container format `format`.
pub fn probe_lines(input: &str, format: &str, streams: &[StreamInfo]) -> (lines: Vec<String>)
    ensures
        texts(lines@) == probe_report(input@, format@, streams@),
{
    let mut lines: Vec<String> = Vec::new();
    assert(texts(lines@) == Seq::<Seq<char>>::empty());
    let ghost head = seq!["Input: "@ + input@, "Format: "@ + format@];
    let mut line = String::new();
    line.append("Input: ");
    line.append(input);
    assert(line@ == head[0]);
    add_line(&mut lines, line);
    let mut line = String::new();
    line.append("Format: ");
    line.append(format);
    assert(line@ == head[1]);
    add_line(&mut lines, line);
    let mut i: usize = 0;
    assert(texts(lines@) == head + streams_report(streams@.take(0)));
    while i < streams.len()
        invariant
            i <= streams@.len(),
            texts(lines@) == head + streams_report(streams@.take(i as int)),
        decreases streams@.len() - i,
    {
        let ghost before = texts(lines@);
        let p = &streams[i].params;
        match p.media_type {
            MediaType::Audio => {
                let mut line = String::new();
                line.append("Audio: stream #");
                push_decimal(&mut line, streams[i].index as u64);
                line.append(" codec=");
                line.append(p.codec_id.as_str());
                line.append(" channels=");
                push_decimal(
                    &mut line,
                    match p.channels {
                        Some(c) => c as u64,
                        None => 0,
                    },
                );
                line.append(" rate=");
                push_decimal(
                    &mut line,
                    match p.sample_rate {
                        Some(r) => r as u64,
                        None => 0,
                    },
                );
                assert(line@ == stream_report(streams@[i as int])[0]);
                add_line(&mut lines, line);
            },
            MediaType::Video => {
                let mut line = String::new();
                line.append("Video: stream #");
                push_decimal(&mut line, streams[i].index as u64);
                line.append(" codec=");
                line.append(p.codec_id.as_str());
                line.append(" ");
                push_size(&mut line, p.width, p.height);
                assert(line@ == stream_report(streams@[i as int])[0]);
                add_line(&mut lines, line);
            },
            _ => {},
        }
        assert(texts(lines@) == before + stream_report(streams@[i as int]));
        assert(streams@.take(i + 1).drop_last() == streams@.take(i as int));
        i += 1;
        assert(texts(lines@) == head + streams_report(streams@.take(i as int)));
    }
    assert(streams@.take(streams@.len() as int) == streams@);
    if streams.len() == 0 {
        add_line(&mut lines, "(no streams)".to_owned());
    }
    assert(texts(lines@) == probe_report(input@, format@, streams@));
    lines
}

/// What a source hands out.
#[derive(Clone, Copy, Debug, PartialEq, Eq, Structural)]
pub enum SourceShape {
    Bytes,
    Packets,
    Frames,
    MultiTitle,
    Other,
}

/// What a dry run says of a source that does not hand out bytes.
pub open spec fn shape_complaint(shape: SourceShape) -> Option<Seq<char>> {
    match shape {
        SourceShape::Bytes => None,
        SourceShape::Packets => Some(
            ": packet-shape source (e.g. rtmp://) — wire it through a JSON job"@,
        ),
        SourceShape::Frames => Some(
            ": frame-shape source (e.g. generate:// video) — wire it through a JSON job"@,
        ),
        SourceShape::MultiTitle => Some(
            ": multi-title source (e.g. bluray:// without ?title=) — pin a title via the URI and re-open"@,
        ),
        SourceShape::Other => Some(
            ": source shape not yet supported by the bytes-driven path — wire it through a JSON job"@,
        ),
    }
}

/// Why a dry run cannot describe the source `input`; `None` where it can.
pub fn shape_error(input: &str, shape: SourceShape) -> (r: Option<String>)
    ensures
        r is Some <==> shape_complaint(shape) is Some,
        r matches Some(s) ==> s@ == input@ + shape_complaint(shape)->0,
{
    let complaint = match shape {
        SourceShape::Bytes => {
            return None;
        },
        SourceShape::Packets => {
            ": packet-shape source (e.g. rtmp://) — wire it through a JSON job"
        },
        SourceShape::Frames => {
            ": frame-shape source (e.g. generate:// video) — wire it through a JSON job"
        },
        SourceShape::MultiTitle => {
            ": multi-title source (e.g. bluray:// without ?title=) — pin a title via the URI and re-open"
        },
        SourceShape::Other => {
            ": source shape not yet supported by the bytes-driven path — wire it through a JSON job"
        },
    };
    let mut s = String::new();
    s.append(input);
    s.append(complaint);
    assert(s@ == input@ + complaint@);
    Some(s)
}

} // verus!
