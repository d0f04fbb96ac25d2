use oxideplay::cli::{
    ao_help_lines, unreadable_job_text, vo_help_lines, wants_driver_help, Backends, DriverHelp,
    JobSource, Options, Plan, PlanError, DEFAULT_BUFFER_BYTES,
};
use oxideplay::clock::{MediaTime, TimeBase};
use oxideplay::media::{BarrierKind, CodecParameters, EngineMsg, Frame, MediaType, StreamInfo};
use oxideplay::select::{
    audio_driver_list, auto_audio, auto_video, is_null_sink, resolve_downmix_policy, select_audio,
    select_video, video_driver_list, AudioChoice, DownmixMode, DownmixPolicy, VideoChoice,
};
use oxideplay::startup::{
    derive_driver_params, derive_duration, duration_fits, extract_track_info, next_wait,
    on_start_event, probe_lines, shape_error, status_lines, SourceShape, StartError, StartEvent, TrackInfo,
};
use oxideplay::uri::{ext_from_uri, filename_stem_from_uri, normalise_playback_input};

const ALL: Backends = Backends { winit: true, sdl2: true, sysaudio: true };
const NONE: Backends = Backends { winit: false, sdl2: false, sysaudio: false };

fn argv(args: &[&str]) -> Vec<String> {
    args.iter().map(|s| s.to_string()).collect()
}

fn stream(media_type: MediaType) -> StreamInfo {
    StreamInfo {
        index: 3,
        time_base: TimeBase { num: 1, den: 1000 },
        duration: None,
        start_time: None,
        params: CodecParameters {
            media_type,
            codec_id: "c".to_string(),
            sample_rate: None,
            channels: None,
            pixel_format: None,
            width: None,
            height: None,
        },
    }
}

#[test]
fn normalises_http_m3u8_to_hls_source_scheme() {
    assert_eq!(
        normalise_playback_input("https://example.test/master.m3u8?token=x"),
        "hls+https://example.test/master.m3u8?token=x"
    );
    assert_eq!(
        normalise_playback_input("https://example.test/video.ts"),
        "https://example.test/video.ts"
    );
}

#[test]
fn normalising_minds_case_query_and_fragment() {
    assert_eq!(normalise_playback_input("HTTP://h/A.M3U8#t"), "hls+HTTP://h/A.M3U8#t");
    assert_eq!(normalise_playback_input("http://h/a.ts?x=.m3u8"), "http://h/a.ts?x=.m3u8");
    assert_eq!(normalise_playback_input("/tmp/a.m3u8"), "/tmp/a.m3u8");
    assert_eq!(normalise_playback_input(""), "");
    let once = normalise_playback_input("http://h/a.m3u8");
    assert_eq!(normalise_playback_input(&once), once);
}

#[test]
fn titles_and_extensions_come_from_the_last_segment() {
    assert_eq!(filename_stem_from_uri("/a/b/Song.Name.flac?x=/y.z"), Some("Song.Name".to_string()));
    assert_eq!(filename_stem_from_uri("https://h/a.mp4?next=/b/c.mkv"), Some("a".to_string()));
    assert_eq!(filename_stem_from_uri("/a/b/Song.Name.flac?x=1"), Some("Song.Name".to_string()));
    assert_eq!(filename_stem_from_uri("plain"), Some("plain".to_string()));
    assert_eq!(filename_stem_from_uri("dir/"), None);
    assert_eq!(filename_stem_from_uri(""), None);
    assert_eq!(filename_stem_from_uri("a/.hidden"), None);
    assert_eq!(ext_from_uri("http://h/a.b/Clip.MP4?q=1"), Some("mp4".to_string()));
    assert_eq!(ext_from_uri("https://h/a.mp4?next=/b/c.mkv"), Some("mkv".to_string()));
    assert_eq!(ext_from_uri("https://h/a.mp4?next=/b/c"), None);
    // A query without a slash leaves title and extension on one segment.
    assert_eq!(ext_from_uri("https://h/a.mp4?next=c.mkv"), Some("mp4".to_string()));
    assert_eq!(filename_stem_from_uri("https://h/a.mp4?next=c.mkv"), Some("a".to_string()));
    assert_eq!(ext_from_uri("a.b/clip"), None);
    assert_eq!(ext_from_uri("clip."), Some(String::new()));
}

#[test]
fn driver_help_is_found_in_either_form() {
    let vo = |a: &[&str]| matches!(wants_driver_help(&argv(a)), Some(DriverHelp::Vo));
    let ao = |a: &[&str]| matches!(wants_driver_help(&argv(a)), Some(DriverHelp::Ao));
    assert!(vo(&["p", "--vo", "help"]));
    assert!(vo(&["p", "x.mp4", "--vo=HeLp"]));
    assert!(vo(&["p", "--vo=?"]));
    assert!(ao(&["p", "--ao", "?"]));
    assert!(ao(&["p", "--ao=help"]));
    assert!(ao(&["p", "--vo=winit", "--ao=help", "--vo=help"]));
    assert_eq!(wants_driver_help(&argv(&["--vo", "help"])), None);
    assert_eq!(wants_driver_help(&argv(&["p", "--vo"])), None);
    assert_eq!(wants_driver_help(&argv(&["p", "--vo", "auto", "help"])), None);
    assert_eq!(wants_driver_help(&argv(&[])), None);
}

#[test]
fn help_screens_list_what_is_built_in() {
    let lines = vo_help_lines(NONE);
    assert_eq!(lines.len(), 5);
    assert_eq!(lines[0], "Video outputs (--vo):");
    assert_eq!(
        lines[1],
        "  auto       pick the first compiled-in option that initialises"
    );
    assert_eq!(lines[4], "  none       synonym for `null`");
    let lines = vo_help_lines(ALL);
    assert_eq!(lines[2], "  winit      winit windowing + wgpu YUV→RGB");
    assert_eq!(lines[3], "  sdl2       SDL2 video (libSDL2 via libloading)");
    let drivers = [
        ("alsa".to_string(), "ALSA".to_string()),
        ("pipewire-long".to_string(), "PipeWire".to_string()),
    ];
    let lines = ao_help_lines(ALL, &drivers, &argv(&["pipewire-long"]));
    assert_eq!(lines.len(), 11);
    assert_eq!(lines[7], "");
    assert_eq!(lines[8], "sysaudio drivers (usable as --ao <name>):");
    assert_eq!(lines[9], "  alsa       [unavailable] ALSA");
    assert_eq!(lines[10], "  pipewire-long [ok]          PipeWire");
    assert_eq!(ao_help_lines(NONE, &drivers, &[]).len(), 5);
}

#[test]
fn null_sinks_have_two_names() {
    assert!(is_null_sink("none") && is_null_sink("null"));
    assert!(!is_null_sink("None") && !is_null_sink("") && !is_null_sink("auto"));
}

#[test]
fn driver_lists_follow_the_build() {
    assert_eq!(video_driver_list(ALL), "auto, winit, sdl2, null, none");
    assert_eq!(
        video_driver_list(Backends { sdl2: false, ..ALL }),
        "auto, winit, null, none"
    );
    assert_eq!(video_driver_list(Backends { winit: false, ..ALL }), "auto, sdl2, null, none");
    assert_eq!(video_driver_list(NONE), "auto, null, none");
    assert_eq!(
        audio_driver_list(ALL),
        "auto, sysaudio, sdl2, <any sysaudio driver name>, null, none"
    );
    assert_eq!(
        audio_driver_list(Backends { sdl2: false, ..ALL }),
        "auto, sysaudio, <any sysaudio driver name>, null, none"
    );
    assert_eq!(
        audio_driver_list(Backends { sysaudio: false, ..ALL }),
        "auto, sdl2, null, none"
    );
    assert_eq!(audio_driver_list(NONE), "auto, null, none");
}

#[test]
fn video_drivers_are_selected_by_name() {
    let dims = Some((640, 360));
    assert_eq!(select_video("null", dims, ALL), Ok(VideoChoice::Nothing));
    assert_eq!(select_video("hash", None, NONE), Ok(VideoChoice::Hash));
    assert_eq!(select_video("winit", None, ALL), Ok(VideoChoice::Winit));
    assert_eq!(select_video("auto", None, NONE), Ok(VideoChoice::Auto));
    assert_eq!(select_video("sdl2", dims, ALL), Ok(VideoChoice::Sdl2(640, 360)));
    assert_eq!(select_video("sdl2", None, ALL), Ok(VideoChoice::Nothing));
    assert_eq!(
        select_video("winit", dims, NONE),
        Err("--vo: unknown driver 'winit' (compiled in: auto, null, none)".to_string())
    );
    assert_eq!(auto_video(dims, ALL), vec![VideoChoice::Winit, VideoChoice::Sdl2(640, 360)]);
    assert_eq!(auto_video(None, ALL), vec![VideoChoice::Winit]);
    assert_eq!(auto_video(dims, NONE), vec![]);
}

#[test]
fn audio_drivers_are_selected_by_name() {
    assert!(matches!(select_audio("none", ALL), Ok(AudioChoice::Nothing)));
    assert!(matches!(select_audio("hash", NONE), Ok(AudioChoice::Hash)));
    assert!(matches!(select_audio("auto", NONE), Ok(AudioChoice::Auto)));
    assert!(matches!(select_audio("sysaudio", ALL), Ok(AudioChoice::Sysaudio)));
    assert!(matches!(select_audio("sdl2", ALL), Ok(AudioChoice::Sdl2)));
    assert!(matches!(select_audio("pulse", ALL), Ok(AudioChoice::Driver(d)) if d == "pulse"));
    let no_sys = Backends { sysaudio: false, ..ALL };
    match select_audio("pulse", no_sys) {
        Err(e) => assert_eq!(
            e,
            "--ao: unknown driver 'pulse' (compiled in: auto, sdl2, null, none)"
        ),
        Ok(_) => panic!("no such driver"),
    }
    assert!(matches!(auto_audio(ALL)[..], [AudioChoice::Sysaudio, AudioChoice::Sdl2]));
    assert!(auto_audio(NONE).is_empty());
}

#[test]
fn downmix_policies_resolve() {
    assert_eq!(resolve_downmix_policy(None, false), Ok(DownmixPolicy::Auto));
    assert_eq!(resolve_downmix_policy(None, true), Ok(DownmixPolicy::Forbid));
    for (name, mode) in [
        ("loro", DownmixMode::LoRo),
        ("ltrt", DownmixMode::LtRt),
        ("binaural", DownmixMode::Binaural),
        ("average", DownmixMode::Average),
    ] {
        assert_eq!(resolve_downmix_policy(Some(name), false), Ok(DownmixPolicy::Force(mode)));
    }
    assert_eq!(resolve_downmix_policy(Some("mono"), false), Err("mono".to_string()));
}

fn options() -> Options {
    Options {
        input: Some("http://h/a.m3u8".to_string()),
        job: None,
        inline: None,
        dry_run: false,
        mute: false,
        no_video: false,
        buffer_mib: 64,
        vo: "auto".to_string(),
        ao: "auto".to_string(),
    }
}

fn play(o: &Options) -> oxideplay::cli::PlayPlan {
    match o.plan() {
        Ok(Plan::Play(p)) => p,
        _ => panic!("nothing to play"),
    }
}

#[test]
fn a_plain_input_is_planned() {
    let p = play(&options());
    assert!(matches!(p.source, JobSource::Plain(u) if u == "hls+http://h/a.m3u8"));
    assert!(p.want_audio && p.want_video && !p.mute);
    assert_eq!((p.vo.as_str(), p.ao.as_str()), ("auto", "auto"));
    assert_eq!(p.title_from, Some("hls+http://h/a.m3u8".to_string()));
}

#[test]
fn jobs_win_over_inputs_and_inline_over_files() {
    let mut o = options();
    o.job = Some("-".to_string());
    let p = play(&o);
    assert!(matches!(p.source, JobSource::Stdin));
    assert_eq!(p.title_from, None);
    o.job = Some("job.json".to_string());
    assert!(matches!(play(&o).source, JobSource::File(f) if f == "job.json"));
    o.inline = Some("{}".to_string());
    assert!(matches!(play(&o).source, JobSource::Inline(j) if j == "{}"));
}

#[test]
fn unwanted_outputs_are_not_opened() {
    let mut o = options();
    o.no_video = true;
    let p = play(&o);
    assert!(p.want_audio && !p.want_video);
    assert_eq!((p.vo.as_str(), p.ao.as_str()), ("null", "auto"));
    assert_eq!(select_video(&p.vo, None, ALL), Ok(VideoChoice::Nothing));
    o.ao = "none".to_string();
    let p = play(&o);
    assert!(!p.want_audio && !p.want_video);
    assert_eq!((p.vo.as_str(), p.ao.as_str()), ("null", "null"));
    o.mute = true;
    assert!(play(&o).mute);
}

#[test]
fn plans_that_make_no_sense_are_refused() {
    let mut o = options();
    o.input = None;
    match o.plan() {
        Err(e) => {
            assert_eq!(e, PlanError::NothingToPlay);
            assert_eq!(e.text(), "no input URI (pass a path or --job)");
        }
        Ok(_) => panic!("nothing to play"),
    }
    o.dry_run = true;
    o.inline = Some("{}".to_string());
    match o.plan() {
        Err(e) => {
            assert_eq!(e, PlanError::NothingToProbe);
            assert_eq!(e.text(), "dry-run requires an input path");
        }
        Ok(_) => panic!("nothing to probe"),
    }
    o.input = Some("x.mp4".to_string());
    assert!(matches!(o.plan(), Ok(Plan::DryRun(u)) if u == "x.mp4"));
}

#[test]
fn the_streams_are_waited_for() {
    let ev = |m: EngineMsg<(), ()>| on_start_event(StartEvent::Message(m));
    assert!(matches!(ev(EngineMsg::Started(vec![stream(MediaType::Audio)])), Ok(Some(s)) if s.len() == 1));
    assert!(matches!(ev(EngineMsg::Finished), Err(StartError::Finished)));
    assert!(matches!(
        ev(EngineMsg::Frame { kind: MediaType::Video, frame: Frame::Other }),
        Err(StartError::OutOfTurn)
    ));
    assert!(matches!(
        ev(EngineMsg::Barrier(BarrierKind::SeekRejected { generation: 1 })),
        Err(StartError::OutOfTurn)
    ));
    assert_eq!(
        StartError::OutOfTurn.text(),
        "oxideplay: executor sent something else before reporting streams"
    );
    assert!(matches!(on_start_event::<(), ()>(StartEvent::Timeout), Ok(None)));
    assert!(matches!(
        on_start_event::<(), ()>(StartEvent::Disconnected),
        Err(StartError::Exited)
    ));
    assert_eq!(next_wait(MediaTime::from_secs(30)), Ok(MediaTime::from_secs(1)));
    assert_eq!(next_wait(MediaTime::from_millis(20)), Ok(MediaTime::from_millis(20)));
    assert_eq!(next_wait(MediaTime::zero()), Err(StartError::TimedOut));
    assert_eq!(
        StartError::TimedOut.text(),
        "oxideplay: timed out waiting for executor to report streams"
    );
    assert_eq!(
        StartError::Finished.text(),
        "oxideplay: executor finished before producing streams"
    );
    assert_eq!(
        StartError::Exited.text(),
        "oxideplay: executor exited before reporting streams"
    );
}

#[test]
fn driver_parameters_come_from_the_streams() {
    assert_eq!(derive_driver_params(&[], true), (48_000, 2, None));
    let mut a = stream(MediaType::Audio);
    a.params.sample_rate = Some(44_100);
    a.params.channels = Some(6);
    let mut v = stream(MediaType::Video);
    v.params.width = Some(320);
    v.params.height = Some(200);
    let half = stream(MediaType::Video);
    let streams = [a, v, half, stream(MediaType::Subtitle)];
    assert_eq!(derive_driver_params(&streams, true), (44_100, 6, Some((320, 200))));
    assert_eq!(derive_driver_params(&streams, false), (44_100, 6, None));
    let bare = [stream(MediaType::Audio)];
    assert_eq!(derive_driver_params(&bare, true), (48_000, 2, None));
}

#[test]
fn the_duration_is_that_of_the_audio_first() {
    assert_eq!(derive_duration(&[]), None);
    let mut v = stream(MediaType::Video);
    v.duration = Some(9_000);
    let mut a = stream(MediaType::Audio);
    a.duration = Some(8_500);
    assert_eq!(
        derive_duration(&[v.duplicate(), a.duplicate()]),
        Some(MediaTime::from_millis(8_500))
    );
    assert_eq!(
        derive_duration(&[stream(MediaType::Audio), v.duplicate()]),
        Some(MediaTime::from_secs(9))
    );
    a.duration = Some(-1);
    assert_eq!(derive_duration(&[a.duplicate(), v]), Some(MediaTime::zero()));
    let mut s = stream(MediaType::Subtitle);
    s.duration = Some(1);
    assert_eq!(derive_duration(&[s]), None);
}

#[test]
fn the_status_block_lists_streams_and_drivers() {
    let mut a = stream(MediaType::Audio);
    a.params.codec_id = "flac".to_string();
    a.params.channels = Some(2);
    a.params.sample_rate = Some(96_000);
    let mut v = stream(MediaType::Video);
    v.params.codec_id = "av1".to_string();
    v.params.width = Some(1920);
    let lines = status_lines(&[a, v, stream(MediaType::Data)], &Some("winit".to_string()), &None);
    assert_eq!(
        lines,
        vec![
            "oxideplay: playing 3 stream(s)",
            "  audio: flac 2ch @ 96000 Hz",
            "  video: av1 1920x0",
            "  vo: winit",
            "  ao: null (audio disabled)",
        ]
    );
    assert_eq!(status_lines(&[], &None, &None)[1], "  vo: null (video disabled)");
}

#[test]
fn a_dry_run_reports_the_streams() {
    let mut a = stream(MediaType::Audio);
    a.params.channels = Some(1);
    let mut v = stream(MediaType::Video);
    v.params.width = Some(16);
    v.params.height = Some(9);
    assert_eq!(
        probe_lines("x.mkv", "matroska", &[a, v]),
        vec![
            "Input: x.mkv",
            "Format: matroska",
            "Audio: stream #3 codec=c channels=1 rate=0",
            "Video: stream #3 codec=c 16x9",
        ]
    );
    assert_eq!(
        probe_lines("x", "y", &[]),
        vec!["Input: x", "Format: y", "(no streams)"]
    );
}

#[test]
fn sources_without_bytes_cannot_be_probed() {
    assert_eq!(shape_error("a", SourceShape::Bytes), None);
    assert_eq!(
        shape_error("rtmp://x", SourceShape::Packets).unwrap(),
        "rtmp://x: packet-shape source (e.g. rtmp://) — wire it through a JSON job"
    );
    assert!(shape_error("g", SourceShape::Frames).unwrap().starts_with("g: frame-shape source"));
    assert!(shape_error("b", SourceShape::MultiTitle).unwrap().ends_with("and re-open"));
    assert!(shape_error("o", SourceShape::Other).unwrap().starts_with("o: source shape not yet"));
}

#[test]
fn a_track_that_cannot_be_opened_gets_its_file_name() {
    let t = extract_track_info("/m/Song.flac", Some(MediaTime::from_secs(3)), None);
    assert_eq!(t.title, Some("Song".to_string()));
    assert_eq!(t.duration, Some(MediaTime::from_secs(3)));
    assert_eq!(extract_track_info("/m/", None, None).title, None);
}

#[test]
fn what_the_container_says_of_a_track_wins() {
    let found = TrackInfo { title: Some("Aria".to_string()), duration: None };
    let t = extract_track_info("/m/Song.flac", Some(MediaTime::from_secs(3)), Some(found));
    assert_eq!(t.title, Some("Aria".to_string()));
    assert_eq!(t.duration, None);
}

#[test]
fn a_container_without_a_title_gets_its_file_name() {
    let found = TrackInfo { title: None, duration: Some(MediaTime::from_secs(7)) };
    let t = extract_track_info("/m/Song.flac", Some(MediaTime::from_secs(3)), Some(found));
    assert_eq!(t.title, Some("Song".to_string()));
    assert_eq!(t.duration, Some(MediaTime::from_secs(7)));
    let found = TrackInfo { title: None, duration: None };
    assert_eq!(extract_track_info("/m/", None, Some(found)).title, None);
}

#[test]
fn the_prefetch_buffer_is_given_in_mib() {
    let mut o = options();
    assert_eq!(play(&o).buffer, 67_108_864);
    assert_eq!(play(&o).buffer, DEFAULT_BUFFER_BYTES as u64);
    o.buffer_mib = 0;
    assert_eq!(play(&o).buffer, 0);
    o.buffer_mib = u32::MAX;
    assert_eq!(play(&o).buffer, 4_503_599_626_321_920);
}

#[test]
fn an_unreadable_job_file_is_reported() {
    assert_eq!(unreadable_job_text("gone"), "oxideplay: cannot read job file: gone");
}

#[test]
fn only_the_duration_that_counts_has_to_fit() {
    let mut far = stream(MediaType::Video);
    far.time_base = TimeBase { num: i64::MAX, den: 1 };
    far.duration = Some(i64::MAX);
    assert!(!duration_fits(&[far.duplicate()]));
    let mut near = stream(MediaType::Audio);
    near.duration = Some(2_000);
    let streams = [far, near];
    assert!(duration_fits(&streams));
    assert_eq!(derive_duration(&streams), Some(MediaTime::from_secs(2)));
    assert!(duration_fits(&[]));
}
