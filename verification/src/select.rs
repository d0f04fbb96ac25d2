//! Which output drivers play.

use vstd::prelude::*;

use crate::cli::Backends;
use crate::text::{chars_of, same};

verus! {

/// How surround sound is mixed down to stereo.
#[derive(Clone, Copy, Debug, PartialEq, Eq, Structural)]
pub enum DownmixMode {
    /// Left only / right only: the default for speakers.
    LoRo,
    /// Left total / right total: a matrix that a decoder can undo.
    LtRt,
    /// For headphones.
    Binaural,
    /// The mean of the channels.
    Average,
}

/// Whether and how the player may mix down.
#[derive(Clone, Copy, Debug, PartialEq, Eq, Structural)]
pub enum DownmixPolicy {
    Auto,
    Force(DownmixMode),
    Forbid,
}

/// A way to show video.
#[derive(Clone, Copy, Debug, PartialEq, Eq, Structural)]
pub enum VideoChoice {
    /// Show none.
    Nothing,
    /// The first that works.
    Auto,
    /// A window. Its dimensions may still be unknown: the first frame tells.
    Winit,
    /// SDL, at these dimensions.
    Sdl2(u32, u32),
    /// A digest of the frames.
    Hash,
}

/// A way to play audio.
#[derive(Debug)]
pub enum AudioChoice {
    /// Play none.
    Nothing,
    /// The first that works.
    Auto,
    /// The system's default driver.
    Sysaudio,
    /// The system's driver of this name.
    Driver(String),
    /// SDL.
    Sdl2,
    /// A digest of the samples.
    Hash,
}

/// Whether a driver name stands for no output at all.
pub open spec fn names_null(name: Seq<char>) -> bool {
    name == "none"@ || name == "null"@
}

/// The video drivers of a build, for messages.
pub open spec fn video_drivers(b: Backends) -> Seq<char> {
    if b.winit && b.sdl2 {
        "auto, winit, sdl2, null, none"@
    } else if b.winit {
        "auto, winit, null, none"@
    } else if b.sdl2 {
        "auto, sdl2, null, none"@
    } else {
        "auto, null, none"@
    }
}

/// The audio drivers of a build, for messages.
pub open spec fn audio_drivers(b: Backends) -> Seq<char> {
    if b.sysaudio && b.sdl2 {
        "auto, sysaudio, sdl2, <any sysaudio driver name>, null, none"@
    } else if b.sysaudio {
        "auto, sysaudio, <any sysaudio driver name>, null, none"@
    } else if b.sdl2 {
        "auto, sdl2, null, none"@
    } else {
        "auto, null, none"@
    }
}

/// The way to show video that `--vo name` selects; `None` where the build has no
/// such driver. SDL needs the dimensions up front, and shows nothing without.
pub open spec fn video_choice(
    name: Seq<char>,
    dims: Option<(u32, u32)>,
    b: Backends,
) -> Option<VideoChoice> {
    if names_null(name) {
        Some(VideoChoice::Nothing)
    } else if name == "hash"@ {
        Some(VideoChoice::Hash)
    } else if name == "auto"@ {
        Some(VideoChoice::Auto)
    } else if name == "winit"@ && b.winit {
        Some(VideoChoice::Winit)
    } else if name == "sdl2"@ && b.sdl2 {
        match dims {
            Some((w, h)) => Some(VideoChoice::Sdl2(w, h)),
            None => Some(VideoChoice::Nothing),
        }
    } else {
        None
    }
}

/// Whether `c` is the way to play audio that `--ao name` selects. A name that is
/// no other driver's is a system driver's, where the build has those.
pub open spec fn audio_choice(name: Seq<char>, b: Backends, c: AudioChoice) -> bool {
    if names_null(name) {
        c is Nothing
    } else if name == "hash"@ {
        c is Hash
    } else if name == "auto"@ {
        c is Auto
    } else if name == "sysaudio"@ && b.sysaudio {
        c is Sysaudio
    } else if name == "sdl2"@ && b.sdl2 {
        c is Sdl2
    } else {
        c matches AudioChoice::Driver(d) && d@ == name
    }
}

/// Whether a build without system drivers has no driver called `name`.
pub open spec fn audio_unknown(name: Seq<char>, b: Backends) -> bool {
    !b.sysaudio && !names_null(name) && name != "hash"@ && name != "auto"@ && !(name == "sdl2"@
        && b.sdl2)
}

/// What is said of an unknown driver.
pub open spec fn unknown_driver(
    flag: Seq<char>,
    name: Seq<char>,
    drivers: Seq<char>,
) -> Seq<char> {
    flag + ": unknown driver '"@ + name + "' (compiled in: "@ + drivers + ")"@
}

/// Whether `a` and `b` are the same text.
fn is_named(a: &str, b: &str) -> (r: bool)
    ensures
        r == (a@ == b@),
{
    let x = chars_of(a);
    let y = chars_of(b);
    same(&x, &y)
}

/// Whether a driver name stands for no output at all.
pub fn is_null_sink(name: &str) -> (b: bool)
    ensures
        b == names_null(name@),
{
    is_named(name, "none") || is_named(name, "null")
}

/// The video drivers of a build, for messages.
pub fn video_driver_list(b: Backends) -> (list: &'static str)
    ensures
        list@ == video_drivers(b),
{
    match (b.winit, b.sdl2) {
        (true, true) => "auto, winit, sdl2, null, none",
        (true, false) => "auto, winit, null, none",
        (false, true) => "auto, sdl2, null, none",
        (false, false) => "auto, null, none",
    }
}

/// The audio drivers of a build, for messages.
pub fn audio_driver_list(b: Backends) -> (list: &'static str)
    ensures
        list@ == audio_drivers(b),
{
    match (b.sysaudio, b.sdl2) {
        (true, true) => "auto, sysaudio, sdl2, <any sysaudio driver name>, null, none",
        (true, false) => "auto, sysaudio, <any sysaudio driver name>, null, none",
        (false, true) => "auto, sdl2, null, none",
        (false, false) => "auto, null, none",
    }
}

/// What is said of an unknown driver.
fn unknown_driver_text(flag: &str, name: &str, drivers: &str) -> (s: String)
    ensures
        s@ == unknown_driver(flag@, name@, drivers@),
{
    let mut s = String::new();
    s.append(flag);
    s.append(": unknown driver '");
    s.append(name);
    s.append("' (compiled in: ");
    s.append(drivers);
    s.append(")");
    assert(s@ == unknown_driver(flag@, name@, drivers@));
    s
}

/// The way to show video that `--vo name` selects, for a source of dimensions
/// `dims`; a message where the build has no such driver.
pub fn select_video(name: &str, dims: Option<(u32, u32)>, b: Backends) -> (r: Result<
    VideoChoice,
    String,
>)
    ensures
        r is Ok <==> video_choice(name@, dims, b) is Some,
        r matches Ok(c) ==> video_choice(name@, dims, b) == Some(c),
        r matches Err(e) ==> e@ == unknown_driver("--vo"@, name@, video_drivers(b)),
{
    if is_null_sink(name) {
        return Ok(VideoChoice::Nothing);
    }
    if is_named(name, "hash") {
        return Ok(VideoChoice::Hash);
    }
    if is_named(name, "auto") {
        return Ok(VideoChoice::Auto);
    }
    if b.winit && is_named(name, "winit") {
        return Ok(VideoChoice::Winit);
    }
    if b.sdl2 && is_named(name, "sdl2") {
        return match dims {
            Some((w, h)) => Ok(VideoChoice::Sdl2(w, h)),
            None => Ok(VideoChoice::Nothing),
        };
    }
    Err(unknown_driver_text("--vo", name, video_driver_list(b)))
}

/// The way to play audio that `--ao name` selects; a message where the build has
/// no such driver.
pub fn select_audio(name: &str, b: Backends) -> (r: Result<AudioChoice, String>)
    ensures
        r is Err <==> audio_unknown(name@, b),
        r matches Ok(c) ==> audio_choice(name@, b, c),
        r matches Err(e) ==> e@ == unknown_driver("--ao"@, name@, audio_drivers(b)),
{
    if is_null_sink(name) {
        return Ok(AudioChoice::Nothing);
    }
    if is_named(name, "hash") {
        return Ok(AudioChoice::Hash);
    }
    if is_named(name, "auto") {
        return Ok(AudioChoice::Auto);
    }
    if b.sysaudio && is_named(name, "sysaudio") {
        return Ok(AudioChoice::Sysaudio);
    }
    if b.sdl2 && is_named(name, "sdl2") {
        return Ok(AudioChoice::Sdl2);
    }
    if b.sysaudio {
        return Ok(AudioChoice::Driver(name.to_owned()));
    }
    Err(unknown_driver_text("--ao", name, audio_driver_list(b)))
}

/// What `auto` tries for video, in this order.
pub open spec fn video_tries(dims: Option<(u32, u32)>, b: Backends) -> Seq<VideoChoice> {
    (if b.winit {
        seq![VideoChoice::Winit]
    } else {
        seq![]
    }) + (match dims {
        Some((w, h)) if b.sdl2 => seq![VideoChoice::Sdl2(w, h)],
        _ => seq![],
    })
}

/// What `auto` tries for audio, in this order.
pub open spec fn audio_tries(b: Backends) -> Seq<AudioChoice> {
    (if b.sysaudio {
        seq![AudioChoice::Sysaudio]
    } else {
        seq![]
    }) + (if b.sdl2 {
        seq![AudioChoice::Sdl2]
    } else {
        seq![]
    })
}

/// What `auto` tries for video, in this order; the first that opens shows the
/// video, and where none does there is none. SDL is tried only at known
/// dimensions.
pub fn auto_video(dims: Option<(u32, u32)>, b: Backends) -> (order: Vec<VideoChoice>)
    ensures
        order@ == (if b.winit {
            seq![VideoChoice::Winit]
        } else {
            seq![]
        }) + (match dims {
            Some((w, h)) if b.sdl2 => seq![VideoChoice::Sdl2(w, h)],
            _ => seq![],
        }),
        order@ == video_tries(dims, b),
{
    let mut order: Vec<VideoChoice> = Vec::new();
    if b.winit {
        order.push(VideoChoice::Winit);
    }
    if b.sdl2 {
        if let Some((w, h)) = dims {
            order.push(VideoChoice::Sdl2(w, h));
        }
    }
    order
}

/// What `auto` tries for audio, in this order; the first that opens plays the
/// audio, and where none does there is none.
pub fn auto_audio(b: Backends) -> (order: Vec<AudioChoice>)
    ensures
        order@ == (if b.sysaudio {
            seq![AudioChoice::Sysaudio]
        } else {
            seq![]
        }) + (if b.sdl2 {
            seq![AudioChoice::Sdl2]
        } else {
            seq![]
        }),
        order@ == audio_tries(b),
{
    let mut order: Vec<AudioChoice> = Vec::new();
    if b.sysaudio {
        order.push(AudioChoice::Sysaudio);
    }
    if b.sdl2 {
        order.push(AudioChoice::Sdl2);
    }
    order
}

/// The downmix called `name`.
pub open spec fn downmix_named(name: Seq<char>) -> Option<DownmixMode> {
    if name == "loro"@ {
        Some(DownmixMode::LoRo)
    } else if name == "ltrt"@ {
        Some(DownmixMode::LtRt)
    } else if name == "binaural"@ {
        Some(DownmixMode::Binaural)
    } else if name == "average"@ {
        Some(DownmixMode::Average)
    } else {
        None
    }
}

impl DownmixMode {
    /// The downmix called `name`.
    pub fn named(name: &str) -> (m: Option<DownmixMode>)
        ensures
            m == downmix_named(name@),
    {
        if is_named(name, "loro") {
            Some(DownmixMode::LoRo)
        } else if is_named(name, "ltrt") {
            Some(DownmixMode::LtRt)
        } else if is_named(name, "binaural") {
            Some(DownmixMode::Binaural)
        } else if is_named(name, "average") {
            Some(DownmixMode::Average)
        } else {
            None
        }
    }
}

/// The policy that `--downmix` and `--no-downmix` ask for: to forbid wins, and
/// without either the player chooses. An unknown downmix is handed back.
pub fn resolve_downmix_policy(downmix: Option<&str>, no_downmix: bool) -> (r: Result<
    DownmixPolicy,
    String,
>)
    ensures
        no_downmix ==> r == Ok::<DownmixPolicy, String>(DownmixPolicy::Forbid),
        !no_downmix && downmix is None ==> r == Ok::<DownmixPolicy, String>(DownmixPolicy::Auto),
        !no_downmix ==> (downmix matches Some(name) ==> match downmix_named(name@) {
            Some(mode) => r == Ok::<DownmixPolicy, String>(DownmixPolicy::Force(mode)),
            None => r matches Err(e) && e@ == name@,
        }),
{
    if no_downmix {
        return Ok(DownmixPolicy::Forbid);
    }
    match downmix {
        None => Ok(DownmixPolicy::Auto),
        Some(name) => match DownmixMode::named(name) {
            Some(mode) => Ok(DownmixPolicy::Force(mode)),
            None => Err(name.to_owned()),
        },
    }
}

// ───────────────────── laws ─────────────────────

/// A driver that is chosen by name is one that the build has, and SDL is chosen at the
/// source's own size only. The null names choose nothing, whatever the build; `auto` and
/// `hash` are always there.
pub proof fn law_only_drivers_of_the_build_are_chosen(
    name: Seq<char>,
    dims: Option<(u32, u32)>,
    b: Backends,
)
    ensures
        video_choice(name, dims, b) == Some(VideoChoice::Winit) ==> b.winit && name == "winit"@,
        video_choice(name, dims, b) matches Some(VideoChoice::Sdl2(w, h)) ==> b.sdl2 && dims == Some(
            (w, h),
        ) && name == "sdl2"@,
        name == "none"@ || name == "null"@ ==> video_choice(name, dims, b) == Some(
            VideoChoice::Nothing,
        ) && names_null(name),
        names_null(name) ==> name == "none"@ || name == "null"@,
        video_choice(name, dims, b) == Some(VideoChoice::Nothing) ==> names_null(name) || name
            == "sdl2"@ && dims is None,
        video_choice(name, dims, b) == Some(VideoChoice::Auto) <==> name == "auto"@,
        video_choice(name, dims, b) == Some(VideoChoice::Hash) <==> name == "hash"@,
        name == "winit"@ && b.winit ==> video_choice(name, dims, b) == Some(VideoChoice::Winit),
        name == "winit"@ && !b.winit ==> video_choice(name, dims, b) is None,
        name == "sdl2"@ && !b.sdl2 ==> video_choice(name, dims, b) is None,
        name == "sdl2"@ && b.sdl2 ==> (dims matches Some((w, h)) ==> video_choice(name, dims, b)
            == Some(VideoChoice::Sdl2(w, h))),
{
    lemma_driver_names_differ();
}

/// An audio driver that is chosen by name is one that the build has; where it has the
/// system's drivers every other name is one of theirs, and where it has not such a name is
/// unknown.
pub proof fn law_only_audio_drivers_of_the_build_are_chosen(
    name: Seq<char>,
    b: Backends,
    c: AudioChoice,
)
    requires
        audio_choice(name, b, c),
        !audio_unknown(name, b),
    ensures
        c is Nothing <==> name == "none"@ || name == "null"@,
        c is Hash <==> name == "hash"@,
        c is Auto <==> name == "auto"@,
        c is Sysaudio ==> b.sysaudio && name == "sysaudio"@,
        c is Sdl2 ==> b.sdl2 && name == "sdl2"@,
        c matches AudioChoice::Driver(d) ==> b.sysaudio && d@ == name,
        name == "sysaudio"@ ==> c is Sysaudio,
        name == "sdl2"@ && b.sdl2 ==> c is Sdl2,
{
    lemma_driver_names_differ();
}

proof fn lemma_driver_names_differ()
    ensures
        "none"@ != "null"@,
        "none"@ != "hash"@,
        "none"@ != "auto"@,
        "none"@ != "sdl2"@,
        "none"@ != "winit"@,
        "none"@ != "sysaudio"@,
        "null"@ != "hash"@,
        "null"@ != "auto"@,
        "null"@ != "sdl2"@,
        "null"@ != "winit"@,
        "null"@ != "sysaudio"@,
        "hash"@ != "auto"@,
        "hash"@ != "sdl2"@,
        "hash"@ != "winit"@,
        "hash"@ != "sysaudio"@,
        "auto"@ != "sdl2"@,
        "auto"@ != "winit"@,
        "auto"@ != "sysaudio"@,
        "sdl2"@ != "winit"@,
        "sdl2"@ != "sysaudio"@,
        "winit"@ != "sysaudio"@,
{
    reveal_strlit("none");
    reveal_strlit("null");
    reveal_strlit("hash");
    reveal_strlit("auto");
    reveal_strlit("sdl2");
    reveal_strlit("winit");
    reveal_strlit("sysaudio");
    assert("none"@[1] == 'o');
    assert("null"@[1] == 'u' && "null"@[0] == 'n');
    assert("hash"@[0] == 'h');
    assert("auto"@[0] == 'a');
    assert("sdl2"@[0] == 's');
    assert("none"@[0] == 'n');
    assert("sdl2"@.len() == 4 && "winit"@.len() == 5 && "sysaudio"@.len() == 8);
}

/// Each downmix has its own name, and no other text names one.
pub proof fn law_downmixes_go_by_their_names(a: Seq<char>, b: Seq<char>)
    ensures
        downmix_named(a) is Some && downmix_named(a) == downmix_named(b) ==> a == b,
        downmix_named(a) == Some(DownmixMode::LoRo) ==> a == "loro"@,
        downmix_named(a) == Some(DownmixMode::LtRt) ==> a == "ltrt"@,
        downmix_named(a) == Some(DownmixMode::Binaural) ==> a == "binaural"@,
        downmix_named(a) == Some(DownmixMode::Average) ==> a == "average"@,
        downmix_named(a) is None <==> a != "loro"@ && a != "ltrt"@ && a != "binaural"@ && a
            != "average"@,
{
}

/// Left to itself the player tries every driver that the build has and that can be opened,
/// each once: the window before SDL, which needs the size up front, and the system's audio
/// before SDL's.
pub proof fn law_every_driver_of_the_build_is_tried(dims: Option<(u32, u32)>, b: Backends)
    ensures
        ({
            let v = video_tries(dims, b);
            let a = audio_tries(b);
            &&& v.contains(VideoChoice::Winit) <==> b.winit
            &&& b.winit ==> v[0] == VideoChoice::Winit
            &&& dims matches Some((w, h)) ==> (v.contains(VideoChoice::Sdl2(w, h)) <==> b.sdl2)
            &&& v.len() == (if b.winit {
                1int
            } else {
                0
            }) + (if b.sdl2 && dims is Some {
                1int
            } else {
                0
            })
            &&& a.contains(AudioChoice::Sysaudio) <==> b.sysaudio
            &&& b.sysaudio ==> a[0] == AudioChoice::Sysaudio
            &&& a.contains(AudioChoice::Sdl2) <==> b.sdl2
            &&& a.len() == (if b.sysaudio {
                1int
            } else {
                0
            }) + (if b.sdl2 {
                1int
            } else {
                0
            })
        }),
{
    let v = video_tries(dims, b);
    let a = audio_tries(b);
    if b.winit {
        assert(v[0] == VideoChoice::Winit);
    }
    if let Some((w, h)) = dims {
        if b.sdl2 {
            assert(v[v.len() - 1] == VideoChoice::Sdl2(w, h));
        }
    }
    if b.sysaudio {
        assert(a[0] == AudioChoice::Sysaudio);
    }
    if b.sdl2 {
        assert(a[a.len() - 1] == AudioChoice::Sdl2);
    }
}

} // verus!
