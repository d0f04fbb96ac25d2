//! The job that the executor runs: making one up for a plain input, and reading
//! the one to play.
//!
//! A job is a JSON document. `serde_json` builds and writes the one for a plain
//! input, and `oxideav-pipeline` reads jobs.

use vstd::prelude::*;

verus! {

// ───────────────────── JSON ─────────────────────

/// The JSON value type of `serde_json`, carried as it is.
#[verifier::external_type_specification]
#[verifier::external_body]
pub struct ExJsonValue(serde_json::Value);

/// The JSON object type of `serde_json`, carried as it is.
#[verifier::external_type_specification]
#[verifier::external_body]
#[verifier::reject_recursive_types(K)]
#[verifier::reject_recursive_types(V)]
pub struct ExJsonMap<K, V>(serde_json::Map<K, V>);

/// The error type of `serde_json`, carried as it is.
#[verifier::external_type_specification]
#[verifier::external_body]
pub struct ExJsonError(serde_json::Error);

/// A JSON value.
pub enum JsonTree {
    /// A string.
    Text(Seq<char>),
    /// An array.
    List(Seq<JsonTree>),
    /// An object.
    Object(Map<Seq<char>, JsonTree>),
    /// A number, a boolean or null, as it is written.
    Plain(Seq<char>),
}

/// What a JSON value holds.
pub uninterp spec fn tree_of(v: serde_json::Value) -> JsonTree;

/// What a JSON object holds.
pub uninterp spec fn entries_of(m: serde_json::Map<String, serde_json::Value>) -> Map<
    Seq<char>,
    JsonTree,
>;

/// The compact text that `serde_json` writes for a value. An object's keys come in
/// their sorted order, so that the text follows from what the value holds.
pub uninterp spec fn json_text(tree: JsonTree) -> Seq<char>;

/// `Value::from` a string slice is the JSON string of the same characters.
#[verifier::external_body]
fn text_value(s: &str) -> (v: serde_json::Value)
    ensures
        tree_of(v) == JsonTree::Text(s@),
{
    serde_json::Value::from(s)
}

/// `Value::from` a vector of values is the JSON array of the same values in the
/// same order.
#[verifier::external_body]
fn list_value(items: Vec<serde_json::Value>) -> (v: serde_json::Value)
    ensures
        tree_of(v) == JsonTree::List(items@.map_values(|x: serde_json::Value| tree_of(x))),
{
    serde_json::Value::from(items)
}

/// `Value::from` an object is the JSON object of the same entries.
#[verifier::external_body]
fn object_value(map: serde_json::Map<String, serde_json::Value>) -> (v: serde_json::Value)
    ensures
        tree_of(v) == JsonTree::Object(entries_of(map)),
{
    serde_json::Value::from(map)
}

/// The entries of an object that has none.
pub open spec fn no_entries() -> Map<Seq<char>, JsonTree> {
    Map::empty()
}

/// `serde_json::Map::new` is the object without entries.
#[verifier::external_body]
fn new_map() -> (m: serde_json::Map<String, serde_json::Value>)
    ensures
        entries_of(m) == no_entries(),
{
    serde_json::Map::new()
}

/// `serde_json::Map::insert` puts a value under a key, in place of one that the
/// key had.
#[verifier::external_body]
fn insert(m: &mut serde_json::Map<String, serde_json::Value>, key: &str, value: serde_json::Value)
    ensures
        entries_of(*final(m)) == entries_of(*old(m)).insert(key@, tree_of(value)),
{
    m.insert(key.to_string(), value);
}

/// `serde_json::to_string` of a JSON value succeeds: it fails only where a
/// `Serialize` of its own decides to, or where a map has keys that are no strings. The
/// text follows from what the value holds.
#[verifier::external_body]
fn write_json(v: &serde_json::Value) -> (r: Result<String, serde_json::Error>)
    ensures
        r is Ok,
        r matches Ok(s) ==> s@ == json_text(tree_of(*v)),
{
    serde_json::to_string(v)
}

// ───────────────────── jobs ─────────────────────

/// The job type of `oxideav-pipeline`, carried as it is.
#[verifier::external_type_specification]
#[verifier::external_body]
pub struct ExJob(oxideav::pipeline::Job);

/// The error type of the `oxideav` crates, carried as it is.
#[verifier::external_type_specification]
#[verifier::external_body]
pub struct ExCoreError(oxideav_core::Error);

/// The names of a job's outputs.
pub uninterp spec fn job_outputs(job: oxideav::pipeline::Job) -> Set<Seq<char>>;

/// Whether a job's references resolve, without a cycle, and every output and
/// alias has a track.
pub uninterp spec fn valid_job(job: oxideav::pipeline::Job) -> bool;

/// The job that a text describes; `None` where it describes none. Jobs that hold the
/// same are the same job.
pub uninterp spec fn parsed_job(text: Seq<char>) -> Option<oxideav::pipeline::Job>;

/// Whether reading `text` gave `r` as it must for the text of a plain playback
/// job: a job with the one output `@display`, valid exactly where its input is a
/// possible source.
pub open spec fn reads_playback_jobs(
    text: Seq<char>,
    r: Result<oxideav::pipeline::Job, oxideav_core::Error>,
) -> bool {
    forall|key: Seq<char>, input: Seq<char>|
        is_track_key(key) && json_text(#[trigger] playback_tree(key, input)) == text ==> {
            &&& r matches Ok(job)
            &&& job_outputs(job) == set!["@display"@]
            &&& valid_job(job) == is_source_name(input)
        }
}

/// `Job::from_json` reads a job or gives an error; which of them, and what job,
/// follow from the text. The text of a plain playback job describes a job with the one
/// output `@display`, and that job is valid exactly where its input is a possible
/// source: not empty, and not the name of an alias or a sink. What an error says is
/// left open: its type is opaque here.
#[verifier::external_body]
fn parse_job(text: &str) -> (r: Result<oxideav::pipeline::Job, oxideav_core::Error>)
    ensures
        r matches Ok(job) ==> parsed_job(text@) == Some(job),
        r is Err ==> parsed_job(text@) is None,
        reads_playback_jobs(text@, r),
{
    oxideav::pipeline::Job::from_json(text)
}

/// `Job::validate` succeeds exactly on a valid job. What an error says is left open:
/// its type is opaque here.
#[verifier::external_body]
fn validate(job: &oxideav::pipeline::Job) -> (r: Result<(), oxideav_core::Error>)
    ensures
        r is Ok <==> valid_job(*job),
{
    job.validate()
}

/// `IndexMap::contains_key` on a job's outputs tells whether the job has an
/// output of that name.
#[verifier::external_body]
fn has_output(job: &oxideav::pipeline::Job, name: &str) -> (b: bool)
    ensures
        b == job_outputs(*job).contains(name@),
{
    job.outputs.contains_key(name)
}

// ───────────────────── the plain playback job ─────────────────────

/// Whether a job's track list can stand under `key`.
pub open spec fn is_track_key(key: Seq<char>) -> bool {
    key == "all"@ || key == "audio"@ || key == "video"@
}

/// Whether a job can read `input` as a source: a name that starts with `@` is an
/// alias or a sink.
pub open spec fn is_source_name(input: Seq<char>) -> bool {
    input.len() > 0 && input[0] != '@'
}

/// A track list with one track, which reads `source`.
pub open spec fn track_list(source: Seq<char>) -> JsonTree {
    JsonTree::List(seq![JsonTree::Object(map!["from"@ => JsonTree::Text(source)])])
}

/// The job that plays `input`: `@in` reads it, and `@display` shows the tracks of
/// `@in` under `key`.
pub open spec fn playback_tree(key: Seq<char>, input: Seq<char>) -> JsonTree {
    JsonTree::Object(
        map![
            "@in"@ => JsonTree::Object(map!["all"@ => track_list(input)]),
            "@display"@ => JsonTree::Object(map![key => track_list("@in"@)]),
        ],
    )
}

/// The key under which the display lists its tracks: only the kinds asked for,
/// so that no decoder is made for the others. With neither asked for the job
/// still runs, on all tracks.
pub open spec fn display_key(want_audio: bool, want_video: bool) -> Seq<char> {
    if want_audio == want_video {
        "all"@
    } else if want_audio {
        "audio"@
    } else {
        "video"@
    }
}

/// The text of the job that plays `input`.
pub open spec fn playback_text(
    input: Seq<char>,
    want_audio: bool,
    want_video: bool,
) -> Seq<char> {
    json_text(playback_tree(display_key(want_audio, want_video), input))
}

/// Where a job's frames are to be shown.
#[derive(Clone, Copy, Debug, PartialEq, Eq, Structural)]
pub enum JobTarget {
    Display,
    Out,
}

/// Why there is no job to play.
#[derive(Debug)]
pub enum JobError {
    /// The job for a plain input could not be written.
    Synthesis(serde_json::Error),
    /// The text describes no job.
    Parse(oxideav_core::Error),
    /// The job is not valid.
    Invalid(oxideav_core::Error),
    /// The job shows nothing.
    NoTarget,
}

impl JobError {
    /// What is said before the outside error's own words; all that is said of a
    /// job that shows nothing.
    pub open spec fn lead(self) -> Seq<char> {
        match self {
            JobError::Synthesis(_) => "oxideplay: failed to synthesise playback job: "@,
            JobError::Parse(_) => ""@,
            JobError::Invalid(_) => ""@,
            JobError::NoTarget =>
                "oxideplay: job must declare a @display or @out output (plain playback synthesises one automatically)"@,
        }
    }

    /// What is said before the outside error's own words; all that is said of a
    /// job that shows nothing.
    pub fn lead_text(&self) -> (s: &'static str)
        ensures
            s@ == self.lead(),
    {
        match self {
            JobError::Synthesis(_) => "oxideplay: failed to synthesise playback job: ",
            JobError::Parse(_) => "",
            JobError::Invalid(_) => "",
            JobError::NoTarget => {
                "oxideplay: job must declare a @display or @out output (plain playback synthesises one automatically)"
            },
        }
    }
}

impl JobTarget {
    /// The name of the output.
    pub open spec fn output(self) -> Seq<char> {
        match self {
            JobTarget::Display => "@display"@,
            JobTarget::Out => "@out"@,
        }
    }

    /// The name of the output.
    pub fn name(self) -> (s: &'static str)
        ensures
            s@ == self.output(),
    {
        match self {
            JobTarget::Display => "@display",
            JobTarget::Out => "@out",
        }
    }
}

/// The target of a job with these outputs: the display first.
pub open spec fn target_among(outputs: Set<Seq<char>>) -> Option<JobTarget> {
    if outputs.contains("@display"@) {
        Some(JobTarget::Display)
    } else if outputs.contains("@out"@) {
        Some(JobTarget::Out)
    } else {
        None
    }
}

/// A track list with one track, which reads `source`.
fn track_list_value(source: &str) -> (v: serde_json::Value)
    ensures
        tree_of(v) == track_list(source@),
{
    let mut track = new_map();
    insert(&mut track, "from", text_value(source));
    let track = object_value(track);
    let mut tracks: Vec<serde_json::Value> = Vec::new();
    tracks.push(track);
    assert(tracks@.map_values(|x: serde_json::Value| tree_of(x)) == seq![
        JsonTree::Object(map!["from"@ => JsonTree::Text(source@)]),
    ]);
    list_value(tracks)
}

/// An object with the one entry `value` under `key`.
fn single(key: &str, value: serde_json::Value) -> (v: serde_json::Value)
    ensures
        tree_of(v) == JsonTree::Object(map![key@ => tree_of(value)]),
{
    let mut map = new_map();
    insert(&mut map, key, value);
    object_value(map)
}

/// The job that plays `input`, as a JSON value.
pub fn playback_job(input: &str, want_audio: bool, want_video: bool) -> (v: serde_json::Value)
    ensures
        tree_of(v) == playback_tree(display_key(want_audio, want_video), input@),
{
    let key = if want_audio == want_video {
        "all"
    } else if want_audio {
        "audio"
    } else {
        "video"
    };
    let mut job = new_map();
    insert(&mut job, "@in", single("all", track_list_value(input)));
    insert(&mut job, "@display", single(key, track_list_value("@in")));
    object_value(job)
}

/// The text of the job that plays `input`.
pub fn synthesise_playback_job(input: &str, want_audio: bool, want_video: bool) -> (r: Result<
    String,
    JobError,
>)
    ensures
        r is Ok,
        r matches Ok(s) ==> s@ == playback_text(input@, want_audio, want_video),
{
    let job = playback_job(input, want_audio, want_video);
    match write_json(&job) {
        Ok(s) => Ok(s),
        Err(e) => Err(JobError::Synthesis(e)),
    }
}

/// The target of a job, given whether it has a display and whether it has an
/// out.
pub fn pick_target(display: bool, out: bool) -> (t: Option<JobTarget>)
    ensures
        t == (if display {
            Some(JobTarget::Display)
        } else if out {
            Some(JobTarget::Out)
        } else {
            None
        }),
{
    if display {
        Some(JobTarget::Display)
    } else if out {
        Some(JobTarget::Out)
    } else {
        None
    }
}

/// Whether loading `text` gave `r` as it must for the text of a plain playback
/// job: the job, shown on the display, exactly where its input is a possible
/// source.
pub open spec fn loads_playback_jobs(
    text: Seq<char>,
    r: Result<(oxideav::pipeline::Job, JobTarget), JobError>,
) -> bool {
    forall|key: Seq<char>, input: Seq<char>|
        is_track_key(key) && json_text(#[trigger] playback_tree(key, input)) == text ==> {
            &&& r is Ok <==> is_source_name(input)
            &&& r is Err ==> r->Err_0 is Invalid
            &&& r is Ok ==> job_outputs(r->Ok_0.0) == set!["@display"@]
            &&& r is Ok ==> r->Ok_0.1 == JobTarget::Display
        }
}

/// Reads the job that `text` describes, checks it, and finds its target.
pub fn load_job(text: &str) -> (r: Result<(oxideav::pipeline::Job, JobTarget), JobError>)
    ensures
        match r {
            Ok((job, target)) => {
                &&& parsed_job(text@) == Some(job)
                &&& valid_job(job)
                &&& target_among(job_outputs(job)) == Some(target)
            },
            Err(JobError::Parse(_)) => parsed_job(text@) is None,
            Err(JobError::Invalid(_)) => parsed_job(text@) matches Some(job) && !valid_job(job),
            Err(JobError::NoTarget) => {
                &&& parsed_job(text@) matches Some(job)
                &&& valid_job(job)
                &&& target_among(job_outputs(job)) is None
            },
            Err(JobError::Synthesis(_)) => false,
        },
        loads_playback_jobs(text@, r),
{
    let job = match parse_job(text) {
        Ok(job) => job,
        Err(e) => {
            return Err(JobError::Parse(e));
        },
    };
    match validate(&job) {
        Ok(_) => {},
        Err(e) => {
            return Err(JobError::Invalid(e));
        },
    }
    match pick_target(has_output(&job, "@display"), has_output(&job, "@out")) {
        Some(target) => Ok((job, target)),
        None => Err(JobError::NoTarget),
    }
}

/// The job that plays `input`, read back from its text. It is shown on the
/// display, exactly where `input` can be a source; elsewhere the job is not valid.
pub fn load_plain_job(input: &str, want_audio: bool, want_video: bool) -> (r: Result<
    (oxideav::pipeline::Job, JobTarget),
    JobError,
>)
    ensures
        r is Ok <==> is_source_name(input@),
        r matches Ok((job, target)) ==> {
            &&& parsed_job(playback_text(input@, want_audio, want_video)) == Some(job)
            &&& target == JobTarget::Display
            &&& job_outputs(job) == set!["@display"@]
            &&& valid_job(job)
        },
        r matches Err(e) ==> e is Invalid,
{
    let text = match synthesise_playback_job(input, want_audio, want_video) {
        Ok(text) => text,
        Err(e) => {
            return Err(e);
        },
    };
    assert(is_track_key(display_key(want_audio, want_video)));
    load_job(text.as_str())
}

// ───────────────────── laws ─────────────────────

/// The display lists the tracks of the kind that is wanted where only one is, and all of
/// them otherwise.
pub proof fn law_only_wanted_tracks_are_decoded(want_audio: bool, want_video: bool)
    ensures
        ({
            let key = display_key(want_audio, want_video);
            &&& is_track_key(key)
            &&& key == "audio"@ <==> want_audio && !want_video
            &&& key == "video"@ <==> want_video && !want_audio
            &&& key == "all"@ <==> want_audio == want_video
        }),
{
    reveal_strlit("all");
    reveal_strlit("audio");
    reveal_strlit("video");
    assert("all"@.len() == 3 && "audio"@.len() == 5 && "video"@.len() == 5);
    assert("audio"@[0] == 'a' && "video"@[0] == 'v');
}

/// What a JSON object holds under `key`.
pub open spec fn entry(tree: JsonTree, key: Seq<char>) -> Option<JsonTree> {
    match tree {
        JsonTree::Object(o) => if o.dom().contains(key) {
            Some(o[key])
        } else {
            None
        },
        _ => None,
    }
}

/// Whether `tree` is an object with the one key `key`, under which stands a list of one
/// track that reads `source`.
pub open spec fn lists_one_track(tree: JsonTree, key: Seq<char>, source: Seq<char>) -> bool {
    &&& forall|k: Seq<char>| #[trigger] entry(tree, k) is Some <==> k == key
    &&& entry(tree, key) matches Some(JsonTree::List(tracks))
    &&& tracks.len() == 1
    &&& forall|k: Seq<char>| #[trigger] entry(tracks[0], k) is Some <==> k == "from"@
    &&& entry(tracks[0], "from"@) == Some(JsonTree::Text(source))
}

/// The job for a plain input shows the input and nothing else: the display, its one output,
/// takes the tracks of the one source, and that source is the input.
pub proof fn law_a_plain_job_shows_its_input(key: Seq<char>, input: Seq<char>)
    ensures
        ({
            let job = playback_tree(key, input);
            &&& forall|k: Seq<char>| #[trigger] entry(job, k) is Some <==> k == "@in"@ || k
                == "@display"@
            &&& entry(job, "@in"@) is Some && lists_one_track(
                entry(job, "@in"@)->0,
                "all"@,
                input,
            )
            &&& entry(job, "@display"@) is Some && lists_one_track(
                entry(job, "@display"@)->0,
                key,
                "@in"@,
            )
        }),
{
    reveal_strlit("@in");
    reveal_strlit("@display");
    assert("@in"@.len() == 3 && "@display"@.len() == 8);
}

/// A source has a name, and one that starts with an at sign is none: such names are those
/// of the job's own parts.
pub proof fn law_names_of_parts_are_no_sources(input: Seq<char>)
    ensures
        is_source_name(input) ==> input != ""@,
        is_source_name(input.push('x')) <==> input.len() == 0 || input[0] != '@',
        !is_source_name(seq!['@'] + input),
        !is_source_name(Seq::empty()),
{
    reveal_strlit("");
}

/// A job is shown on its display, and on its other output only where it has no display; a
/// job with neither is shown nowhere.
pub proof fn law_the_display_is_the_first_target(outputs: Set<Seq<char>>)
    ensures
        target_among(outputs) matches Some(t) ==> outputs.contains(t.output()),
        outputs.contains("@display"@) <==> target_among(outputs) == Some(JobTarget::Display),
        outputs.contains("@out"@) && !outputs.contains("@display"@) ==> target_among(outputs)
            == Some(JobTarget::Out),
        target_among(outputs) is None <==> !outputs.contains("@display"@) && !outputs.contains(
            "@out"@,
        ),
{
}

} // verus!
