use oxideplay::job::{
    load_job, load_plain_job, pick_target, playback_job, synthesise_playback_job, JobError,
    JobTarget,
};

#[test]
fn synthesised_playback_job_is_valid() {
    let s = synthesise_playback_job("/tmp/song.flac", true, true).unwrap();
    let job = oxideav::pipeline::Job::from_json(&s).expect("parse");
    assert!(job.outputs.contains_key("@display"));
    job.validate().expect("synthesised job validates");
}

#[test]
fn synthesised_job_audio_only_omits_video_track() {
    let s = synthesise_playback_job("/tmp/song.mp4", true, false).unwrap();
    let job: serde_json::Value = serde_json::from_str(&s).unwrap();
    let display = &job["@display"];
    assert!(display.get("audio").is_some());
    assert!(display.get("video").is_none());
    assert!(display.get("all").is_none());
    let job = oxideav::pipeline::Job::from_json(&s).expect("parse");
    job.validate().expect("audio-only synthesised job validates");
}

#[test]
fn synthesised_job_video_only_omits_audio_track() {
    let s = synthesise_playback_job("/tmp/clip.mp4", false, true).unwrap();
    let job: serde_json::Value = serde_json::from_str(&s).unwrap();
    let display = &job["@display"];
    assert!(display.get("video").is_some());
    assert!(display.get("audio").is_none());
    let job = oxideav::pipeline::Job::from_json(&s).expect("parse");
    job.validate().expect("video-only synthesised job validates");
}

#[test]
fn the_job_text_is_compact_and_escaped() {
    assert_eq!(
        synthesise_playback_job("a\"b\\c\n", false, false).unwrap(),
        "{\"@display\":{\"all\":[{\"from\":\"@in\"}]},\"@in\":{\"all\":[{\"from\":\"a\\\"b\\\\c\\n\"}]}}"
    );
}

#[test]
fn the_job_value_names_its_tracks() {
    let job = playback_job("x.ogg", true, false);
    assert_eq!(job["@in"]["all"][0]["from"], "x.ogg");
    assert_eq!(job["@display"]["audio"][0]["from"], "@in");
    assert_eq!(job.as_object().map(|o| o.len()), Some(2));
    assert_eq!(job["@in"]["all"].as_array().map(|a| a.len()), Some(1));
}

#[test]
fn plain_jobs_load_wherever_the_input_is_a_source() {
    for input in ["/tmp/song.flac", "http://h/ä?b=\"c\"", " ", "x@y"] {
        for (audio, video) in [(true, true), (true, false), (false, true), (false, false)] {
            match load_plain_job(input, audio, video) {
                Ok((job, target)) => {
                    assert_eq!(target, JobTarget::Display);
                    assert_eq!(job.outputs.len(), 1);
                    assert!(job.outputs.contains_key("@display"));
                }
                Err(_) => panic!("the job does not load"),
            }
        }
    }
    for input in ["", "@in", "@display", "@other"] {
        assert!(matches!(load_plain_job(input, true, true), Err(JobError::Invalid(_))));
    }
}

#[test]
fn targets_are_found_display_first() {
    assert_eq!(pick_target(true, true), Some(JobTarget::Display));
    assert_eq!(pick_target(false, true), Some(JobTarget::Out));
    assert_eq!(pick_target(false, false), None);
    assert_eq!(JobTarget::Display.name(), "@display");
    assert_eq!(JobTarget::Out.name(), "@out");
    let both = "{\"@in\":{\"all\":[{\"from\":\"a\"}]},\"@out\":{\"all\":[{\"from\":\"@in\"}]},\
                \"@display\":{\"all\":[{\"from\":\"@in\"}]}}";
    assert!(matches!(load_job(both), Ok((_, JobTarget::Display))));
    let out = "{\"@out\":{\"all\":[{\"from\":\"a\"}]}}";
    assert!(matches!(load_job(out), Ok((_, JobTarget::Out))));
}

#[test]
fn jobs_that_cannot_be_played_are_told_apart() {
    assert!(matches!(load_job("{"), Err(JobError::Parse(_))));
    assert!(matches!(load_job("[]"), Err(JobError::Parse(_))));
    assert!(matches!(
        load_job("{\"@display\":{\"all\":[{\"from\":\"@missing\"}]}}"),
        Err(JobError::Invalid(_))
    ));
    assert!(matches!(
        load_job("{\"out.mkv\":{\"all\":[{\"from\":\"a\"}]}}"),
        Err(JobError::NoTarget)
    ));
}

#[test]
fn job_errors_lead_with_what_failed() {
    assert!(JobError::NoTarget
        .lead_text()
        .starts_with("oxideplay: job must declare a @display or @out output"));
    let parse = load_job("{").unwrap_err();
    assert!(matches!(parse, JobError::Parse(_)));
    assert_eq!(parse.lead_text(), "");
    let failed = JobError::Synthesis(serde_json::from_str::<bool>("x").unwrap_err());
    assert_eq!(failed.lead_text(), "oxideplay: failed to synthesise playback job: ");
}

#[test]
fn a_plain_job_plays_the_tracks_that_are_wanted() {
    let counts = |audio: bool, video: bool| {
        let (job, target) = load_plain_job("movie.mkv", audio, video).unwrap();
        assert_eq!(target, JobTarget::Display);
        assert!(job.aliases.contains_key("@in"));
        let display = &job.outputs["@display"];
        (display.audio.len(), display.video.len(), display.all.len())
    };
    assert_eq!(counts(true, false), (1, 0, 0));
    assert_eq!(counts(false, true), (0, 1, 0));
    assert_eq!(counts(true, true), (0, 0, 1));
    assert_eq!(counts(false, false), (0, 0, 1));
}
