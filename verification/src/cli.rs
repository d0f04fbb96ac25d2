//! What the command line asks for.

use vstd::prelude::*;

use crate::text::{
    add_line, chars_of, has_prefix, is_among, lower_chars, part, push_padded, same,
};
use crate::select::is_null_sink;
use crate::uri::normalise_playback_input;
#[allow(unused_imports)]
use crate::select::names_null;
#[allow(unused_imports)]
use crate::text::{lower, padded, texts};
#[allow(unused_imports)]
use crate::uri::playback_input;

verus! {

// ───────────────────── help screens ─────────────────────

/// A help screen on output drivers.
#[derive(Clone, Copy, Debug, PartialEq, Eq, Structural)]
pub enum DriverHelp {
    Vo,
    Ao,
}

/// Whether a driver name asks for help.
pub open spec fn asks_help(name: Seq<char>) -> bool {
    lower(name) == "help"@ || name == "?"@
}

/// The help screen that the argument at `i` asks for, alone or with the argument
/// behind it.
pub open spec fn help_at(argv: Seq<Seq<char>>, i: int) -> Option<DriverHelp> {
    let arg = argv[i];
    let follows = i + 1 < argv.len() && asks_help(argv[i + 1]);
    if "--vo="@.is_prefix_of(arg) {
        if asks_help(arg.skip(5)) {
            Some(DriverHelp::Vo)
        } else {
            None
        }
    } else if "--ao="@.is_prefix_of(arg) {
        if asks_help(arg.skip(5)) {
            Some(DriverHelp::Ao)
        } else {
            None
        }
    } else if arg == "--vo"@ && follows {
        Some(DriverHelp::Vo)
    } else if arg == "--ao"@ && follows {
        Some(DriverHelp::Ao)
    } else {
        None
    }
}

/// The help screen that the first of the arguments from `i` on asks for which
/// asks for one.
pub open spec fn first_help(argv: Seq<Seq<char>>, i: int) -> Option<DriverHelp>
    decreases argv.len() - i,
{
    if i >= argv.len() {
        None
    } else if help_at(argv, i) is Some {
        help_at(argv, i)
    } else {
        first_help(argv, i + 1)
    }
}

/// Whether `name` asks for help.
fn is_help(name: &[char]) -> (b: bool)
    ensures
        b == asks_help(name@),
{
    let help = chars_of("help");
    let mark = chars_of("?");
    let low = lower_chars(name);
    same(&low, &help) || same(name, &mark)
}

/// The help screen that a command line asks for: `--vo help`, `--vo=help`, and
/// the same for `--ao`; `?` stands for `help`. The first argument is the
/// program's name.
pub fn wants_driver_help(argv: &[String]) -> (which: Option<DriverHelp>)
    ensures
        which == first_help(texts(argv@), 1),
{
    let vo_is = chars_of("--vo=");
    let ao_is = chars_of("--ao=");
    let vo = chars_of("--vo");
    let ao = chars_of("--ao");
    let ghost all = texts(argv@);
    let mut i: usize = 1;
    while i < argv.len()
        invariant
            1 <= i,
            all == texts(argv@),
            vo_is@ == "--vo="@,
            ao_is@ == "--ao="@,
            vo@ == "--vo"@,
            ao@ == "--ao"@,
            first_help(all, 1) == first_help(all, i as int),
        decreases argv@.len() - i,
    {
        let arg = chars_of(argv[i].as_str());
        assert(all[i as int] == arg@);
        let follows = i + 1 < argv.len() && {
            let next = chars_of(argv[i + 1].as_str());
            assert(all[i + 1] == next@);
            is_help(&next)
        };
        proof {
            reveal_strlit("--vo=");
            reveal_strlit("--ao=");
        }
        if has_prefix(&arg, &vo_is) {
            let rest = part(&arg, 5, arg.len());
            assert(rest@ == all[i as int].skip(5));
            if is_help(&rest) {
                return Some(DriverHelp::Vo);
            }
        } else if has_prefix(&arg, &ao_is) {
            let rest = part(&arg, 5, arg.len());
            assert(rest@ == all[i as int].skip(5));
            if is_help(&rest) {
                return Some(DriverHelp::Ao);
            }
        } else if same(&arg, &vo) {
            if follows {
                return Some(DriverHelp::Vo);
            }
        } else if same(&arg, &ao) {
            if follows {
                return Some(DriverHelp::Ao);
            }
        }
        i += 1;
    }
    None
}

/// The output backends that a build of the player holds.
#[derive(Clone, Copy, Debug, PartialEq, Eq, Structural)]
pub struct Backends {
    pub winit: bool,
    pub sdl2: bool,
    pub sysaudio: bool,
}

/// One line of a help screen: a driver's name and what it does.
pub open spec fn help_line(name: Seq<char>, about: Seq<char>) -> Seq<char> {
    "  "@ + padded(name, 10) + " "@ + about
}

/// `lines`, if `wanted`.
pub open spec fn lines_if(wanted: bool, lines: Seq<Seq<char>>) -> Seq<Seq<char>> {
    if wanted {
        lines
    } else {
        Seq::empty()
    }
}

/// The lines of the help screen on video outputs.
pub open spec fn vo_help(b: Backends) -> Seq<Seq<char>> {
    seq![
        "Video outputs (--vo):"@,
        help_line("auto"@, "pick the first compiled-in option that initialises"@),
    ] + lines_if(b.winit, seq![help_line("winit"@, "winit windowing + wgpu YUV→RGB"@)])
        + lines_if(b.sdl2, seq![help_line("sdl2"@, "SDL2 video (libSDL2 via libloading)"@)])
        + seq![
        help_line(
            "hash"@,
            "hash every decoded frame (FNV-1a 64-bit), print digest at exit"@,
        ),
        help_line("null"@, "disable video (skip decoder; demuxer drops video packets)"@),
        help_line("none"@, "synonym for `null`"@),
    ]
}

/// The line on one system audio driver.
pub open spec fn driver_line(name: Seq<char>, usable: bool, about: Seq<char>) -> Seq<char> {
    let status = if usable {
        "[ok]"@
    } else {
        "[unavailable]"@
    };
    "  "@ + padded(name, 10) + " "@ + padded(status, 13) + " "@ + about
}

/// The lines on the system audio drivers `drivers`, each a name and a
/// description, of which those in `probed` are usable.
pub open spec fn driver_lines(
    drivers: Seq<(String, String)>,
    probed: Seq<String>,
) -> Seq<Seq<char>> {
    drivers.map_values(
        |d: (String, String)| driver_line(d.0@, texts(probed).contains(d.0@), d.1@),
    )
}

/// The lines of the help screen on audio outputs.
pub open spec fn ao_help(
    b: Backends,
    drivers: Seq<(String, String)>,
    probed: Seq<String>,
) -> Seq<Seq<char>> {
    seq![
        "Audio outputs (--ao):"@,
        help_line("auto"@, "pick the first working backend (sysaudio > sdl2)"@),
    ] + lines_if(
        b.sysaudio,
        seq![help_line("sysaudio"@, "oxideav-sysaudio default (see driver list below)"@)],
    ) + lines_if(b.sdl2, seq![help_line("sdl2"@, "SDL2 audio (libSDL2 via libloading)"@)])
        + seq![
        help_line(
            "hash"@,
            "hash every decoded frame (FNV-1a 64-bit), print digest at exit"@,
        ),
        help_line("null"@, "disable audio (skip decoder; no device open)"@),
        help_line("none"@, "synonym for `null`"@),
    ] + lines_if(
        b.sysaudio,
        seq![Seq::<char>::empty(), "sysaudio drivers (usable as --ao <name>):"@] + driver_lines(
            drivers,
            probed,
        ),
    )
}

/// Appends the line on one driver to a help screen.
fn add_help_line(lines: &mut Vec<String>, name: &str, about: &str)
    ensures
        texts(final(lines)@) == texts(old(lines)@).push(help_line(name@, about@)),
{
    let mut line = String::new();
    line.append("  ");
    push_padded(&mut line, name, 10);
    line.append(" ");
    line.append(about);
    assert(line@ == help_line(name@, about@));
    add_line(lines, line);
}

/// The help screen on video outputs.
pub fn vo_help_lines(b: Backends) -> (lines: Vec<String>)
    ensures
        texts(lines@) == vo_help(b),
{
    let mut lines: Vec<String> = Vec::new();
    assert(texts(lines@) == Seq::<Seq<char>>::empty());
    add_line(&mut lines, "Video outputs (--vo):".to_owned());
    add_help_line(&mut lines, "auto", "pick the first compiled-in option that initialises");
    if b.winit {
        add_help_line(&mut lines, "winit", "winit windowing + wgpu YUV→RGB");
    }
    if b.sdl2 {
        add_help_line(&mut lines, "sdl2", "SDL2 video (libSDL2 via libloading)");
    }
    add_help_line(
        &mut lines,
        "hash",
        "hash every decoded frame (FNV-1a 64-bit), print digest at exit",
    );
    add_help_line(&mut lines, "null", "disable video (skip decoder; demuxer drops video packets)");
    add_help_line(&mut lines, "none", "synonym for `null`");
    assert(texts(lines@) == vo_help(b));
    lines
}

/// The help screen on audio outputs. `drivers` are the system audio drivers, each
/// with a description, and `probed` the names of those that work here.
pub fn ao_help_lines(b: Backends, drivers: &[(String, String)], probed: &[String]) -> (lines: Vec<
    String,
>)
    ensures
        texts(lines@) == ao_help(b, drivers@, probed@),
{
    let mut lines: Vec<String> = Vec::new();
    assert(texts(lines@) == Seq::<Seq<char>>::empty());
    add_line(&mut lines, "Audio outputs (--ao):".to_owned());
    add_help_line(&mut lines, "auto", "pick the first working backend (sysaudio > sdl2)");
    if b.sysaudio {
        add_help_line(&mut lines, "sysaudio", "oxideav-sysaudio default (see driver list below)");
    }
    if b.sdl2 {
        add_help_line(&mut lines, "sdl2", "SDL2 audio (libSDL2 via libloading)");
    }
    add_help_line(
        &mut lines,
        "hash",
        "hash every decoded frame (FNV-1a 64-bit), print digest at exit",
    );
    add_help_line(&mut lines, "null", "disable audio (skip decoder; no device open)");
    add_help_line(&mut lines, "none", "synonym for `null`");
    if b.sysaudio {
        add_line(&mut lines, String::new());
        add_line(&mut lines, "sysaudio drivers (usable as --ao <name>):".to_owned());
        let ghost head = texts(lines@);
        let ghost tail = driver_lines(drivers@, probed@);
        let mut i: usize = 0;
        assert(head + tail.take(0) == head);
        while i < drivers.len()
            invariant
                i <= drivers@.len(),
                tail == driver_lines(drivers@, probed@),
                texts(lines@) == head + tail.take(i as int),
            decreases drivers@.len() - i,
        {
            let name = drivers[i].0.as_str();
            let about = drivers[i].1.as_str();
            let mut line = String::new();
            line.append("  ");
            push_padded(&mut line, name, 10);
            line.append(" ");
            let usable = is_among(name, probed);
            push_padded(
                &mut line,
                if usable {
                    "[ok]"
                } else {
                    "[unavailable]"
                },
                13,
            );
            line.append(" ");
            line.append(about);
            assert(line@ == driver_line(name@, usable, about@));
            assert(line@ == tail[i as int]);
            add_line(&mut lines, line);
            assert(head + tail.take(i + 1) == (head + tail.take(i as int)).push(tail[i as int]));
            i += 1;
        }
        assert(tail.take(tail.len() as int) == tail);
    }
    assert(texts(lines@) == ao_help(b, drivers@, probed@));
    lines
}

// ───────────────────── the plan ─────────────────────

/// The bytes of a MiB.
pub const BYTES_PER_MIB: u64 = 1_048_576;

/// The prefetch buffer's size unless the command line gives one: it rides out a few
/// seconds of jitter.
pub const DEFAULT_BUFFER_BYTES: usize = 67_108_864;

/// The command line's arguments.
#[derive(Debug)]
pub struct Options {
    pub input: Option<String>,
    /// A file that holds a job; `-` for the standard input.
    pub job: Option<String>,
    /// A job.
    pub inline: Option<String>,
    pub dry_run: bool,
    pub mute: bool,
    pub no_video: bool,
    /// The size of the prefetch buffer, in MiB.
    pub buffer_mib: u32,
    pub vo: String,
    pub ao: String,
}

/// Where the job to play comes from.
#[derive(Debug)]
pub enum JobSource {
    /// The job itself.
    Inline(String),
    /// The standard input.
    Stdin,
    /// A file.
    File(String),
    /// No job is given: one is made up for this URI.
    Plain(String),
}

/// What is to be played, and on what.
#[derive(Debug)]
pub struct PlayPlan {
    pub source: JobSource,
    pub want_audio: bool,
    pub want_video: bool,
    /// The video driver to open.
    pub vo: String,
    /// The audio driver to open.
    pub ao: String,
    /// The size of the prefetch buffer, in bytes.
    pub buffer: u64,
    /// The URI to read a title from.
    pub title_from: Option<String>,
    pub mute: bool,
}

/// What the command line asks for.
#[derive(Debug)]
pub enum Plan {
    /// Describe the source at this URI.
    DryRun(String),
    Play(PlayPlan),
}

/// Why the command line asks for nothing that can be done.
#[derive(Clone, Copy, Debug, PartialEq, Eq, Structural)]
pub enum PlanError {
    /// Nothing to describe.
    NothingToProbe,
    /// Nothing to play.
    NothingToPlay,
}

impl PlanError {
    /// The message for the user.
    pub open spec fn message(self) -> Seq<char> {
        match self {
            PlanError::NothingToProbe => "dry-run requires an input path"@,
            PlanError::NothingToPlay => "no input URI (pass a path or --job)"@,
        }
    }

    /// The message for the user.
    pub fn text(self) -> (s: &'static str)
        ensures
            s@ == self.message(),
    {
        match self {
            PlanError::NothingToProbe => "dry-run requires an input path",
            PlanError::NothingToPlay => "no input URI (pass a path or --job)",
        }
    }
}

/// What is said of a job file that cannot be read; `detail` is what the system
/// said.
pub fn unreadable_job_text(detail: &str) -> (s: String)
    ensures
        s@ == "oxideplay: cannot read job file: "@ + detail@,
{
    let mut s = String::new();
    s.append("oxideplay: cannot read job file: ");
    s.append(detail);
    s
}

impl Options {
    /// Whether video is asked for.
    pub open spec fn asks_video(self) -> bool {
        !self.no_video && !names_null(self.vo@)
    }

    /// Whether audio is asked for.
    pub open spec fn asks_audio(self) -> bool {
        !names_null(self.ao@)
    }

    /// Whether `source` is where the job comes from: a job on the command line
    /// wins over one in a file, and that over a plain input.
    pub open spec fn job_is(self, source: JobSource) -> bool {
        match self.inline {
            Some(job) => source matches JobSource::Inline(s) && s@ == job@,
            None => match self.job {
                Some(path) => if path@ == "-"@ {
                    source is Stdin
                } else {
                    source matches JobSource::File(s) && s@ == path@
                },
                None => match self.input {
                    Some(uri) => source matches JobSource::Plain(s) && s@ == playback_input(uri@),
                    None => false,
                },
            },
        }
    }

    /// What the command line asks for. A driver is opened only for what is asked
    /// for. The title is read from a plain input only.
    pub fn plan(&self) -> (r: Result<Plan, PlanError>)
        ensures
            r matches Err(PlanError::NothingToProbe) <==> self.dry_run && self.input is None,
            r matches Err(PlanError::NothingToPlay) <==> !self.dry_run && self.input is None
                && self.job is None && self.inline is None,
            r matches Ok(Plan::DryRun(uri)) ==> self.dry_run && uri@ == playback_input(
                self.input->0@,
            ),
            r matches Ok(Plan::Play(p)) ==> {
                &&& !self.dry_run
                &&& self.job_is(p.source)
                &&& p.want_audio == self.asks_audio()
                &&& p.want_video == self.asks_video()
                &&& p.vo@ == (if self.asks_video() {
                    self.vo@
                } else {
                    "null"@
                })
                &&& p.ao@ == (if self.asks_audio() {
                    self.ao@
                } else {
                    "null"@
                })
                &&& p.title_from is Some <==> self.inline is None && self.job is None
                    && self.input is Some
                &&& p.title_from matches Some(t) ==> t@ == playback_input(self.input->0@)
                &&& p.buffer == self.buffer_mib * 1_048_576
                &&& p.mute == self.mute
            },
            r matches Ok(Plan::DryRun(_)) <==> self.dry_run && self.input is Some,
            r matches Ok(Plan::Play(_)) <==> !self.dry_run && (self.input is Some || self.job is Some
                || self.inline is Some),
            r matches Ok(Plan::Play(p)) ==> {
                &&& p.want_video <==> !names_null(p.vo@)
                &&& p.want_audio <==> !names_null(p.ao@)
                &&& p.source is Plain <==> p.title_from is Some
                &&& p.source matches JobSource::Plain(s) ==> s@ == p.title_from->0@
            },
    {
        if self.dry_run {
            return match &self.input {
                Some(uri) => Ok(Plan::DryRun(normalise_playback_input(uri.as_str()))),
                None => Err(PlanError::NothingToProbe),
            };
        }
        let want_video = !self.no_video && !is_null_sink(self.vo.as_str());
        let want_audio = !is_null_sink(self.ao.as_str());
        let source = match &self.inline {
            Some(job) => JobSource::Inline(job.clone()),
            None => match &self.job {
                Some(path) => {
                    let name = chars_of(path.as_str());
                    let dash = chars_of("-");
                    if same(&name, &dash) {
                        JobSource::Stdin
                    } else {
                        JobSource::File(path.clone())
                    }
                },
                None => match &self.input {
                    Some(uri) => JobSource::Plain(normalise_playback_input(uri.as_str())),
                    None => {
                        return Err(PlanError::NothingToPlay);
                    },
                },
            },
        };
        let title_from = if self.inline.is_none() && self.job.is_none() {
            match &self.input {
                Some(uri) => Some(normalise_playback_input(uri.as_str())),
                None => None,
            }
        } else {
            None
        };
        Ok(
            Plan::Play(
                PlayPlan {
                    source,
                    want_audio,
                    want_video,
                    vo: if want_video {
                        self.vo.clone()
                    } else {
                        "null".to_owned()
                    },
                    ao: if want_audio {
                        self.ao.clone()
                    } else {
                        "null".to_owned()
                    },
                    buffer: self.buffer_mib as u64 * BYTES_PER_MIB,
                    title_from,
                    mute: self.mute,
                },
            ),
        )
    }
}

// ───────────────────── laws ─────────────────────

/// The help screen is that of the first argument that asks for one, the program's name
/// aside; there is none only where no argument asks.
pub proof fn law_the_first_request_for_help_counts(argv: Seq<Seq<char>>, from: int)
    requires
        0 <= from,
    ensures
        first_help(argv, from) is None <==> forall|i: int|
            from <= i < argv.len() ==> #[trigger] help_at(argv, i) is None,
        first_help(argv, from) is Some ==> exists|i: int|
            {
                &&& from <= i < argv.len()
                &&& first_help(argv, from) == #[trigger] help_at(argv, i)
                &&& forall|j: int| from <= j < i ==> #[trigger] help_at(argv, j) is None
            },
    decreases argv.len() - from,
{
    if from < argv.len() && help_at(argv, from) is None {
        law_the_first_request_for_help_counts(argv, from + 1);
    } else if from < argv.len() {
        assert(help_at(argv, from) is Some);
    }
}

/// A flag asks for help on its own drivers: with the word behind it, after an equals sign
/// or as the next argument, in any case of its letters, or with a question mark; with any
/// other word it does not.
pub proof fn law_flags_ask_for_their_own_help(
    argv: Seq<Seq<char>>,
    i: int,
    word: Seq<char>,
)
    requires
        0 <= i < argv.len(),
    ensures
        asks_help(word) <==> lower(word) == "help"@ || word == "?"@,
        argv[i] == "--vo="@ + word ==> (help_at(argv, i) == Some(DriverHelp::Vo) <==> asks_help(
            word,
        )) && help_at(argv, i) != Some(DriverHelp::Ao),
        argv[i] == "--ao="@ + word ==> (help_at(argv, i) == Some(DriverHelp::Ao) <==> asks_help(
            word,
        )) && help_at(argv, i) != Some(DriverHelp::Vo),
        argv[i] == "--vo"@ ==> (help_at(argv, i) == Some(DriverHelp::Vo) <==> i + 1 < argv.len()
            && asks_help(argv[i + 1])) && help_at(argv, i) != Some(DriverHelp::Ao),
        argv[i] == "--ao"@ ==> (help_at(argv, i) == Some(DriverHelp::Ao) <==> i + 1 < argv.len()
            && asks_help(argv[i + 1])) && help_at(argv, i) != Some(DriverHelp::Vo),
        help_at(argv, i) is Some ==> "--vo"@.is_prefix_of(argv[i]) || "--ao"@.is_prefix_of(argv[i]),
{
    reveal_strlit("--vo=");
    reveal_strlit("--ao=");
    reveal_strlit("--vo");
    reveal_strlit("--ao");
    let arg = argv[i];
    assert("--vo"@[2] == 'v' && "--ao"@[2] == 'a' && "--vo="@[2] == 'v' && "--ao="@[2] == 'a');
    if "--vo="@.is_prefix_of(arg) {
        assert(arg.subrange(0, 5)[2] == 'v');
        assert("--vo"@ =~= arg.subrange(0, 4)) by {
            assert forall|k: int| 0 <= k < 4 implies "--vo"@[k] == arg.subrange(0, 4)[k] by {
                assert(arg.subrange(0, 5)[k] == "--vo="@[k]);
            }
        }
    }
    if "--ao="@.is_prefix_of(arg) {
        assert(arg.subrange(0, 5)[2] == 'a');
        assert("--ao"@ =~= arg.subrange(0, 4)) by {
            assert forall|k: int| 0 <= k < 4 implies "--ao"@[k] == arg.subrange(0, 4)[k] by {
                assert(arg.subrange(0, 5)[k] == "--ao="@[k]);
            }
        }
    }
    if arg == "--vo="@ + word {
        assert("--vo="@ =~= arg.subrange(0, 5));
        assert(arg.skip(5) =~= word);
    }
    if arg == "--ao="@ + word {
        assert("--ao="@ =~= arg.subrange(0, 5));
        assert(arg.skip(5) =~= word);
    }
    if arg == "--vo"@ {
        assert("--vo"@ =~= arg.subrange(0, 4));
    }
    if arg == "--ao"@ {
        assert("--ao"@ =~= arg.subrange(0, 4));
    }
}

/// Video is wanted unless the command line turns it off or names a null driver for it;
/// audio unless it names one.
pub proof fn law_outputs_are_wanted_unless_refused(o: Options)
    ensures
        o.no_video ==> !o.asks_video(),
        o.vo@ == "null"@ || o.vo@ == "none"@ ==> !o.asks_video(),
        o.ao@ == "null"@ || o.ao@ == "none"@ ==> !o.asks_audio(),
        !o.no_video && o.vo@ != "null"@ && o.vo@ != "none"@ ==> o.asks_video(),
        o.ao@ != "null"@ && o.ao@ != "none"@ ==> o.asks_audio(),
{
}

/// The job comes from where it is given: from the command line itself before a file, and
/// from a file before a plain input. A single dash is the standard input and no file. What
/// is given is taken as it is; a plain input is normalised.
pub proof fn law_a_given_job_is_the_job(o: Options, source: JobSource)
    requires
        o.job_is(source),
    ensures
        o.inline is Some || o.job is Some || o.input is Some,
        o.inline is Some <==> source is Inline,
        source matches JobSource::Inline(s) ==> s@ == o.inline->0@,
        o.inline is None && o.job is Some <==> source is Stdin || source is File,
        source is Stdin ==> o.job->0@ == "-"@,
        source matches JobSource::File(s) ==> s@ == o.job->0@ && s@ != "-"@,
        source matches JobSource::Plain(s) ==> o.input is Some && s@ == playback_input(o.input->0@),
{
}

} // verus!
