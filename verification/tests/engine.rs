use std::sync::Arc;
use std::time::Duration;

use oxideplay::clock::{
    baseline_samples, position_from, sample_span, MediaTime, Side, TimeBase,
};
use oxideplay::engine::{
    initial_declared_start, Delivery, PlayerEngine, Reaction, SeekReply, VOLUME_POINT, VOLUME_UNITY,
};
use oxideplay::media::{
    AudioFrame, BarrierKind, CodecParameters, EngineMsg, Frame, MediaCommand, MediaType,
    PlaybackState, PlayerEvent, SeekDir, StreamInfo, VideoFrame,
};

type Engine = PlayerEngine<u32>;
type Msg = EngineMsg<u32, u32>;

fn time(d: Duration) -> MediaTime {
    MediaTime { secs: d.as_secs(), sub_nanos: d.subsec_nanos() }
}

fn secs(s: f64) -> MediaTime {
    time(Duration::from_secs_f64(s))
}

fn ms(n: u64) -> MediaTime {
    MediaTime::from_millis(n)
}

fn drift_nanos(a: MediaTime, b: MediaTime) -> u128 {
    let (a, b) = (a.to_nanos(), b.to_nanos());
    if a > b {
        a - b
    } else {
        b - a
    }
}

fn params(media_type: MediaType, codec: &str) -> CodecParameters {
    CodecParameters {
        media_type,
        codec_id: codec.to_string(),
        sample_rate: None,
        channels: None,
        pixel_format: None,
        width: None,
        height: None,
    }
}

fn stream(index: u32, media_type: MediaType, den: i64, start: Option<i64>) -> StreamInfo {
    StreamInfo {
        index,
        time_base: TimeBase { num: 1, den },
        duration: None,
        start_time: start,
        params: params(media_type, "codec"),
    }
}

fn audio_stream() -> StreamInfo {
    let mut s = stream(0, MediaType::Audio, 1000, None);
    s.params.sample_rate = Some(1000);
    s
}

fn video_stream() -> StreamInfo {
    stream(1, MediaType::Video, 1000, None)
}

fn video(pts: Option<i64>, data: u32) -> Msg {
    EngineMsg::Frame { kind: MediaType::Unknown, frame: Frame::Video(VideoFrame { pts, data }) }
}

fn audio(pts: Option<i64>, samples: u32) -> Msg {
    EngineMsg::Frame {
        kind: MediaType::Unknown,
        frame: Frame::Audio(AudioFrame { pts, samples, data: 7 }),
    }
}

fn flush(generation: u32, landed_pts: i64) -> Msg {
    EngineMsg::Barrier(BarrierKind::SeekFlush {
        generation,
        landed_pts,
        time_base: TimeBase { num: 1, den: 1000 },
    })
}

#[test]
fn audio_only_back_pressure_engages_on_audio_low() {
    assert!(Engine::should_throttle_drain(1, 11025, 0, 60));
    assert!(
        !Engine::should_throttle_drain(176_400, 11025, 0, 60),
        "engine throttled with plenty of headroom — would stall playback"
    );
}

#[test]
fn video_only_back_pressure_engages_on_video_full() {
    assert!(Engine::should_throttle_drain(u64::MAX, 11025, 60, 60));
    assert!(!Engine::should_throttle_drain(u64::MAX, 11025, 10, 60));
}

#[test]
fn mixed_audio_video_back_pressure_engages_on_either() {
    assert!(Engine::should_throttle_drain(1, 11025, 60, 60));
    assert!(Engine::should_throttle_drain(1, 11025, 10, 60));
    assert!(Engine::should_throttle_drain(176_400, 11025, 60, 60));
    assert!(!Engine::should_throttle_drain(176_400, 11025, 10, 60));
}

#[test]
fn position_reads_landed_immediately_after_seek() {
    let audio_rate: u32 = 48_000;
    let raw_at_seek = secs(5.000);
    let landed = secs(15.000);
    let clock_baseline_samples = (5.000_f64 * audio_rate as f64) as u64;
    assert_eq!(clock_baseline_samples, baseline_samples(raw_at_seek, audio_rate));
    let clock_origin = landed;
    let pos = position_from(clock_origin, raw_at_seek, clock_baseline_samples, audio_rate);
    assert!(drift_nanos(pos, landed) < Duration::from_micros(50).as_nanos());

    let raw_later = raw_at_seek.plus(&ms(250));
    let pos_later = position_from(clock_origin, raw_later, clock_baseline_samples, audio_rate);
    let expected = landed.plus(&ms(250));
    assert!(drift_nanos(pos_later, expected) < Duration::from_micros(50).as_nanos());
}

#[test]
fn position_clamps_when_master_clock_dips_below_baseline() {
    let audio_rate: u32 = 48_000;
    let raw_at_seek = secs(5.000);
    let landed = secs(15.000);
    let clock_baseline_samples = (5.000_f64 * audio_rate as f64) as u64;
    let clock_origin = landed;
    let raw_dip = raw_at_seek.saturating_sub(&ms(1));
    let pos = position_from(clock_origin, raw_dip, clock_baseline_samples, audio_rate);
    assert_eq!(pos, landed);
}

#[test]
fn declared_start_prefers_audio_master_and_ignores_synthetic_zero() {
    let audio = StreamInfo {
        index: 0,
        time_base: TimeBase { num: 1, den: 90_000 },
        duration: None,
        start_time: Some(900_000),
        params: params(MediaType::Audio, "aac"),
    };
    let video = StreamInfo {
        index: 1,
        time_base: TimeBase { num: 1, den: 90_000 },
        duration: None,
        start_time: Some(902_999),
        params: params(MediaType::Video, "h264"),
    };
    let mut synthetic = video.duplicate();
    synthetic.start_time = Some(0);
    let video = Some(video);
    assert_eq!(
        initial_declared_start(&Some(audio), &video),
        Some(time(Duration::from_secs(10)))
    );
    assert_eq!(
        initial_declared_start(&None, &video),
        Some(secs(902_999.0 / 90_000.0))
    );
    assert_eq!(initial_declared_start(&None, &Some(synthetic)), None);
    assert_eq!(initial_declared_start(&None, &None), None);
}

#[test]
fn late_discovered_initial_pts_can_be_due_immediately() {
    let audio_rate = 48_000;
    let raw_when_first_frame_arrives = ms(375);
    let first_pts = secs(902_999.0 / 90_000.0);
    let baseline = (Duration::from_millis(375).as_secs_f64() * audio_rate as f64) as u64;

    let pos = position_from(first_pts, raw_when_first_frame_arrives, baseline, audio_rate);
    assert!(
        drift_nanos(pos, first_pts) < Duration::from_micros(50).as_nanos(),
        "anchoring on the first late-discovered PTS must make that frame due immediately"
    );
}

#[test]
fn landed_pts_conversion_matches_position_helper() {
    let tb = TimeBase { num: 1, den: 90_000 };
    let landed_pts: i64 = 90_000;
    let landed_dur = tb.time_of(landed_pts).unwrap();
    assert_eq!(landed_dur, time(Duration::from_secs(1)));

    let audio_rate: u32 = 48_000;
    let raw_at_seek = secs(2.5);
    let baseline = (2.5_f64 * audio_rate as f64) as u64;
    let pos = position_from(landed_dur, raw_at_seek, baseline, audio_rate);
    assert!(drift_nanos(pos, landed_dur) < Duration::from_micros(50).as_nanos());
}

#[test]
fn a_time_base_tells_sides_and_instants() {
    let tb = TimeBase { num: 1, den: 90_000 };
    assert_eq!(tb.side(-1), Side::Before);
    assert_eq!(tb.side(0), Side::Zero);
    assert_eq!(tb.side(1), Side::After);
    assert_eq!(tb.time_of(-1), None);
    assert_eq!(tb.time_of(1), Some(MediaTime { secs: 0, sub_nanos: 11_111 }));
    // A tie goes to the even nanosecond.
    let half = TimeBase { num: 1, den: 2_000_000_000 };
    assert_eq!(half.time_of(1), Some(MediaTime { secs: 0, sub_nanos: 0 }));
    assert_eq!(half.time_of(3), Some(MediaTime { secs: 0, sub_nanos: 2 }));
    let undefined = TimeBase { num: 1, den: 0 };
    assert_eq!(undefined.time_of(5), None);
    assert!(!undefined.is_beyond(5));
    let long = TimeBase { num: i64::MAX, den: 1 };
    assert!(long.is_beyond(i64::MAX));
    assert!(!long.is_beyond(1));
    let backward = TimeBase { num: 1, den: -1 };
    assert_eq!(backward.side(-3), Side::After);
    assert_eq!(backward.time_of(-3), Some(MediaTime::from_secs(3)));
}

#[test]
fn seeking_to_a_timestamp_asks_for_it() {
    for ticks in [0_i64, 1, 1499, 1500, 90_000, 7_777_777] {
        let tb = TimeBase { num: 1, den: 90_000 };
        assert_eq!(tb.ticks_of(tb.time_of(ticks).unwrap()), ticks);
    }
    // Half a tick rounds away from zero.
    assert_eq!(TimeBase { num: 1, den: 1 }.ticks_of(ms(500)), 1);
    assert_eq!(TimeBase { num: 1, den: -1 }.ticks_of(ms(1500)), -2);
    assert_eq!(TimeBase { num: 0, den: 1 }.ticks_of(ms(1)), i64::MAX);
    assert_eq!(TimeBase { num: 0, den: 1 }.ticks_of(MediaTime::zero()), 0);
    assert_eq!(TimeBase { num: 5, den: 0 }.ticks_of(ms(1)), 0);
    assert_eq!(
        TimeBase { num: 1, den: i64::MAX }.ticks_of(MediaTime::from_secs(2)),
        i64::MAX
    );
}

#[test]
fn sample_counts_convert_exactly() {
    assert_eq!(sample_span(48_000, 48_000), MediaTime::from_secs(1));
    assert_eq!(sample_span(1, 48_000), MediaTime { secs: 0, sub_nanos: 20_833 });
    assert_eq!(sample_span(3, 0), MediaTime::from_secs(3));
    assert_eq!(baseline_samples(ms(1500), 48_000), 72_000);
    assert_eq!(baseline_samples(MediaTime::from_secs(u64::MAX), u32::MAX), u64::MAX);
}

#[test]
fn a_new_engine_starts_at_the_declared_start() {
    let mut a = audio_stream();
    a.start_time = Some(5_000);
    let e = Engine::new(&[a, video_stream()], Some(MediaTime::from_secs(60)));
    assert_eq!(e.audio_rate, 1000);
    assert!(e.initial_clock_anchored);
    assert_eq!(e.clock_origin, MediaTime::from_secs(5));
    assert_eq!(e.last_audio_end, MediaTime::from_secs(5));
    assert_eq!(e.volume, VOLUME_UNITY);
    assert_eq!(e.duration, Some(MediaTime::from_secs(60)));

    let mut v = video_stream();
    v.start_time = Some(5_000);
    let e = Engine::new(&[v], None);
    assert_eq!(e.audio_rate, 48_000);
    assert_eq!(e.clock_origin, MediaTime::from_secs(5));
    assert_eq!(e.last_audio_end, MediaTime::zero());
}

#[test]
fn the_first_frame_anchors_the_clock_and_is_due() {
    let mut e = Engine::new(&[audio_stream(), video_stream()], None);
    assert!(!e.initial_clock_anchored);
    e.on_message(video(Some(10_033_322), 1), ms(375));
    assert!(e.initial_clock_anchored);
    assert_eq!(e.clock_origin, ms(10_033_322));
    assert_eq!(e.clock_baseline_samples, 375);
    assert_eq!(e.last_audio_end, ms(10_033_322));
    let shown = e.present_one_video_frame(ms(375)).unwrap();
    assert_eq!((shown.pts, shown.data), (Some(10_033_322), 1));
    // A later frame does not move the anchor.
    e.on_message(video(Some(20_000_000), 2), ms(400));
    assert_eq!(e.clock_origin, ms(10_033_322));
    assert_eq!(e.position(ms(400)), ms(10_033_347));
}

#[test]
fn audio_frames_extend_the_audio_and_go_to_the_device() {
    let mut e = Engine::new(&[audio_stream()], None);
    let d = e.on_message(audio(Some(2_000), 250), MediaTime::zero());
    match d {
        Delivery::QueueAudio(f) => assert_eq!((f.pts, f.samples, f.data), (Some(2_000), 250, 7)),
        _ => panic!("the frame did not reach the device"),
    }
    assert_eq!(e.clock_origin, MediaTime::from_secs(2));
    assert_eq!(e.last_audio_end, ms(2_250));
    // A negative timestamp anchors nothing.
    let mut e = Engine::new(&[audio_stream()], None);
    e.on_message(audio(Some(-5), 250), MediaTime::zero());
    assert!(!e.initial_clock_anchored);
    assert_eq!(e.last_audio_end, ms(250));
}

#[test]
fn a_rate_of_zero_adds_no_audio() {
    let mut a = audio_stream();
    a.params.sample_rate = Some(0);
    let mut e = Engine::new(&[a], None);
    e.on_message(audio(None, 250), MediaTime::zero());
    assert_eq!(e.last_audio_end, MediaTime::zero());
}

#[test]
fn frames_are_dropped_until_the_matching_barrier() {
    let mut e = Engine::new(&[audio_stream(), video_stream()], None);
    e.on_message(video(Some(0), 1), MediaTime::zero());
    let r = e.apply_event(PlayerEvent::SeekAbsolute(MediaTime::from_secs(15)), MediaTime::zero());
    assert_eq!(
        r,
        Reaction::Seek { stream: 1, pts: 15_000, time_base: TimeBase { num: 1, den: 1000 } }
    );
    assert!(e.video_queue.is_empty());
    assert_eq!(e.seek_pending_gen, Some(1));

    e.on_message(video(Some(40), 2), MediaTime::zero());
    assert!(matches!(e.on_message(audio(Some(40), 10), MediaTime::zero()), Delivery::Nothing));
    assert!(e.video_queue.is_empty());

    // The barrier of another seek is stale.
    e.on_message(flush(9, 1_000), ms(5_000));
    assert_eq!(e.seek_pending_gen, Some(1));

    e.on_message(flush(1, 14_960), ms(5_000));
    assert_eq!(e.seek_pending_gen, None);
    assert_eq!(e.position(ms(5_000)), ms(14_960));
    assert_eq!(e.position(ms(5_250)), ms(15_210));
    assert_eq!(e.last_audio_end, ms(14_960));
    e.on_message(video(Some(14_960), 3), ms(5_000));
    assert_eq!(e.video_queue.len(), 1);
}

#[test]
fn a_second_seek_overtakes_the_first() {
    let mut e = Engine::new(&[video_stream()], None);
    e.apply_event(PlayerEvent::SeekAbsolute(ms(100)), MediaTime::zero());
    e.apply_event(PlayerEvent::SeekAbsolute(ms(200)), MediaTime::zero());
    e.on_message(flush(1, 100), MediaTime::zero());
    assert_eq!(e.seek_pending_gen, Some(2));
    e.on_message(flush(2, 200), MediaTime::zero());
    assert_eq!(e.seek_pending_gen, None);
    assert_eq!(e.clock_origin, ms(200));
    // The generation wraps.
    e.seek_gen_counter = u32::MAX;
    e.apply_event(PlayerEvent::SeekAbsolute(ms(300)), MediaTime::zero());
    assert_eq!(e.seek_pending_gen, Some(0));
}

#[test]
fn a_rejected_seek_keeps_the_clock_and_disables_seeking() {
    let mut e = Engine::new(&[video_stream()], None);
    e.on_message(video(Some(1_000), 1), ms(10));
    let before = e.position(ms(20));
    e.apply_event(PlayerEvent::SeekRelative(ms(500), SeekDir::Forward), ms(20));
    let d = e.on_message(
        Msg::Barrier(BarrierKind::SeekRejected { generation: 1 }),
        ms(20),
    );
    assert!(matches!(d, Delivery::SeekUnsupported));
    assert!(!e.seek_supported);
    assert_eq!(e.seek_pending_gen, None);
    assert_eq!(e.position(ms(20)), before);
    assert_eq!(
        e.apply_event(PlayerEvent::SeekAbsolute(ms(1)), ms(20)),
        Reaction::Nothing
    );
    assert_eq!(e.seek_gen_counter, 1);
}

#[test]
fn relative_seeks_start_at_the_position() {
    let mut e = Engine::new(&[audio_stream()], None);
    e.on_message(audio(Some(60_000), 10), MediaTime::zero());
    let r = e.apply_event(
        PlayerEvent::SeekRelative(MediaTime::from_secs(10), SeekDir::Forward),
        ms(500),
    );
    assert_eq!(
        r,
        Reaction::Seek { stream: 0, pts: 70_500, time_base: TimeBase { num: 1, den: 1000 } }
    );
    let r = e.apply_event(
        PlayerEvent::SeekRelative(MediaTime::from_secs(600), SeekDir::Back),
        ms(500),
    );
    assert_eq!(
        r,
        Reaction::Seek { stream: 0, pts: 0, time_base: TimeBase { num: 1, den: 1000 } }
    );
}

#[test]
fn nothing_to_seek_disables_seeking() {
    let mut e = Engine::new(&[], None);
    assert_eq!(
        e.apply_event(PlayerEvent::SeekAbsolute(ms(1)), MediaTime::zero()),
        Reaction::Nothing
    );
    assert!(!e.seek_supported);
}

#[test]
fn seek_replies_are_told_apart() {
    let mut e = Engine::new(&[video_stream()], None);
    assert!(!e.on_seek_reply(SeekReply::Accepted));
    assert!(e.seek_supported);
    assert!(e.on_seek_reply(SeekReply::Failed));
    assert!(e.seek_supported);
    assert!(!e.on_seek_reply(SeekReply::Unsupported));
    assert!(!e.seek_supported);
}

#[test]
fn stale_frames_are_skipped_but_never_the_last() {
    let mut e = Engine::new(&[video_stream()], None);
    for (i, pts) in [0_i64, 40, 80, 120, 160].iter().enumerate() {
        e.on_message(video(Some(*pts), i as u32), MediaTime::zero());
    }
    // At 200 ms only frames older than 100 ms are stale.
    e.trim_video_queue(ms(200));
    assert_eq!(e.video_queue.front().map(|f| f.data), Some(3));
    e.trim_video_queue(ms(100_000));
    assert_eq!(e.video_queue.len(), 1);
    assert_eq!(e.video_queue.front().map(|f| f.data), Some(4));
}

#[test]
fn one_frame_is_presented_at_a_time_and_in_order() {
    let mut e = Engine::new(&[video_stream()], None);
    for (i, pts) in [0_i64, 2, 40].iter().enumerate() {
        e.on_message(video(Some(*pts), i as u32), MediaTime::zero());
    }
    assert_eq!(e.present_one_video_frame(MediaTime::zero()).map(|f| f.data), Some(0));
    assert_eq!(e.last_video_presented_pts, Some(0));
    // Two milliseconds ahead is close enough, three are not.
    assert_eq!(e.present_one_video_frame(MediaTime::zero()).map(|f| f.data), Some(1));
    assert!(e.present_one_video_frame(ms(37)).is_none());
    assert_eq!(e.present_one_video_frame(ms(38)).map(|f| f.data), Some(2));
    assert!(e.present_one_video_frame(ms(100)).is_none());
}

#[test]
fn a_sink_without_deadlines_gets_every_frame_in_order() {
    let mut e = Engine::new(&[video_stream()], None);
    for (i, pts) in [0_i64, 4_000, 9_000].iter().enumerate() {
        e.on_message(video(Some(*pts), i as u32), MediaTime::zero());
    }
    let mut seen = Vec::new();
    while let Some(f) = e.drain_video_queue() {
        seen.push(f.data);
    }
    assert_eq!(seen, vec![0, 1, 2]);
    assert_eq!(e.last_video_presented_pts, Some(9_000));
}

#[test]
fn sleeps_end_a_little_before_the_next_frame() {
    let mut e = Engine::new(&[video_stream()], None);
    assert_eq!(e.sleep_time(MediaTime::zero()), ms(16));
    e.on_message(video(Some(0), 0), MediaTime::zero());
    e.on_message(video(Some(10), 1), MediaTime::zero());
    assert_eq!(e.sleep_time(MediaTime::zero()), MediaTime::from_micros(500));
    e.drain_video_queue();
    assert_eq!(e.sleep_time(MediaTime::zero()), ms(9));
    assert_eq!(e.sleep_time(ms(50)), MediaTime::from_micros(500));
    e.drain_video_queue();
    e.on_message(video(Some(4_000), 2), MediaTime::zero());
    assert_eq!(e.sleep_time(MediaTime::zero()), ms(16));
    e.drain_video_queue();
    e.on_message(video(None, 3), MediaTime::zero());
    assert_eq!(e.next_video_target(), None);
    assert_eq!(e.sleep_time(MediaTime::zero()), ms(16));
}

#[test]
fn volume_moves_in_points_and_stays_in_range() {
    let mut e = Engine::new(&[], None);
    let zero = MediaTime::zero();
    assert_eq!(
        e.apply_event(PlayerEvent::VolumeDelta(-5), zero),
        Reaction::SetVolume(95 * VOLUME_POINT)
    );
    assert_eq!(
        e.apply_event(PlayerEvent::VolumeDelta(50), zero),
        Reaction::SetVolume(VOLUME_UNITY)
    );
    assert_eq!(e.apply_event(PlayerEvent::VolumeDelta(i32::MIN), zero), Reaction::SetVolume(0));
    assert_eq!(
        e.apply_event(PlayerEvent::SetVolume(u32::MAX), zero),
        Reaction::SetVolume(VOLUME_UNITY)
    );
}

#[test]
fn muting_twice_restores_the_volume() {
    let mut e = Engine::new(&[], None);
    let zero = MediaTime::zero();
    e.apply_event(PlayerEvent::SetVolume(40 * VOLUME_POINT), zero);
    assert_eq!(e.apply_event(PlayerEvent::ToggleMute, zero), Reaction::SetVolume(0));
    // A muted driver does not hear of a new volume.
    assert_eq!(e.apply_event(PlayerEvent::VolumeDelta(5), zero), Reaction::Nothing);
    assert_eq!(
        e.apply_event(PlayerEvent::ToggleMute, zero),
        Reaction::SetVolume(45 * VOLUME_POINT)
    );
    assert_eq!(e.set_muted(true), 0);
    assert_eq!(e.set_muted(false), 45 * VOLUME_POINT);
}

#[test]
fn pausing_and_quitting_react() {
    let mut e = Engine::new(&[], None);
    let zero = MediaTime::zero();
    assert_eq!(e.apply_event(PlayerEvent::TogglePause, zero), Reaction::SetPaused(true));
    assert_eq!(e.apply_event(PlayerEvent::TogglePause, zero), Reaction::SetPaused(false));
    assert_eq!(e.apply_event(PlayerEvent::Quit, zero), Reaction::Quit);
}

#[test]
fn a_tick_takes_a_bounded_number_of_messages() {
    let mut e = Engine::new(&[audio_stream()], None);
    assert!(e.wants_message(31, 250));
    assert!(!e.wants_message(32, 250));
    assert!(!e.wants_message(0, 249));
    for i in 0..240 {
        e.video_queue.push_back(VideoFrame { pts: None, data: i });
    }
    assert!(!e.wants_message(0, u64::MAX));
}

#[test]
fn playback_ends_when_everything_is_played() {
    let mut e = Engine::new(&[audio_stream(), video_stream()], None);
    assert!(!e.audio_drained(0));
    e.on_message(audio(Some(0), 10), MediaTime::zero());
    e.on_message(video(Some(0), 1), MediaTime::zero());
    e.on_message(Msg::Finished, MediaTime::zero());
    assert!(e.executor_done);
    assert!(!e.finished(0));
    e.drain_video_queue();
    assert!(!e.finished(5));
    assert!(e.finished(0));
    e.paused = true;
    assert!(!e.finished(0));
    let mut e = Engine::new(&[video_stream()], None);
    assert!(e.audio_drained(99));
    e.on_disconnected();
    assert!(e.finished(99));
}

#[test]
fn system_commands_become_events() {
    let mut e = Engine::new(&[], None);
    assert_eq!(e.media_command_event(MediaCommand::Play), None);
    assert_eq!(e.media_command_event(MediaCommand::Pause), Some(PlayerEvent::TogglePause));
    assert_eq!(
        e.media_command_event(MediaCommand::TogglePlayPause),
        Some(PlayerEvent::TogglePause)
    );
    assert_eq!(
        e.media_command_event(MediaCommand::Seek(-5)),
        Some(PlayerEvent::SeekAbsolute(MediaTime::zero()))
    );
    assert_eq!(
        e.media_command_event(MediaCommand::Seek(1_500_000_000)),
        Some(PlayerEvent::SeekAbsolute(ms(1500)))
    );
    assert_eq!(e.media_command_event(MediaCommand::Next), None);
    assert_eq!(e.media_command_event(MediaCommand::Previous), None);
    e.paused = true;
    assert_eq!(e.media_command_event(MediaCommand::Play), Some(PlayerEvent::TogglePause));
    assert_eq!(e.media_command_event(MediaCommand::Pause), None);
}

#[test]
fn the_widget_hears_of_changes_once() {
    let mut e = Engine::new(&[], None);
    assert_eq!(e.announce_track(), Some(PlaybackState::Playing));
    assert_eq!(e.announce_track(), None);
    assert_eq!(e.sync_playback_state(), None);
    e.paused = true;
    assert_eq!(e.sync_playback_state(), Some(PlaybackState::Paused));
    assert_eq!(e.sync_playback_state(), None);
}

#[test]
fn the_overlay_shows_the_state() {
    let mut v = video_stream();
    v.params.width = Some(640);
    v.params.height = Some(360);
    v.params.codec_id = "h264".to_string();
    let e = Engine::new(&[audio_stream(), v], Some(MediaTime::from_secs(9)));
    let o = e.overlay_state(ms(40));
    assert!(o.playing);
    assert_eq!(o.position, ms(40));
    assert_eq!(o.duration, Some(MediaTime::from_secs(9)));
    assert_eq!(o.volume, VOLUME_UNITY);
    assert!(!o.muted);
    assert_eq!(o.video_size, Some((640, 360)));
    assert_eq!(o.codec_name, Some("h264".to_string()));
    assert!(o.seekable);
    let e = Engine::new(&[audio_stream()], None);
    let o = e.overlay_state(MediaTime::zero());
    assert_eq!(o.video_size, None);
    assert_eq!(o.codec_name, Some("codec".to_string()));
}

#[test]
fn timings_show_where_the_streams_stand() {
    let mut e = Engine::new(&[audio_stream(), video_stream()], None);
    let t = e.timings();
    assert!(t.audio.is_none() && t.video_decoded.is_none() && t.video_presented.is_none());
    e.on_message(audio(Some(0), 100), MediaTime::zero());
    e.on_message(video(Some(40), 1), MediaTime::zero());
    e.on_message(video(None, 2), MediaTime::zero());
    e.drain_video_queue();
    let t = e.timings();
    assert_eq!(t.audio, Some(ms(100)));
    assert_eq!(t.video_decoded, Some(ms(40)));
    assert_eq!(t.video_presented, Some(ms(40)));
    assert_eq!(t.video_queue_len, 1);
}

#[test]
fn a_lease_keeps_its_identity_through_the_queue() {
    let lease = Arc::new(vec![1_u8, 2, 3, 4]);
    let mut e: PlayerEngine<Arc<Vec<u8>>> = PlayerEngine::new(&[video_stream()], None);
    e.on_message::<()>(
        EngineMsg::Frame {
            kind: MediaType::Video,
            frame: Frame::Video(VideoFrame { pts: Some(3), data: Arc::clone(&lease) }),
        },
        MediaTime::zero(),
    );
    let shown = e.drain_video_queue().unwrap();
    assert!(Arc::ptr_eq(&lease, &shown.data));
}

#[test]
fn times_that_cannot_be_held_are_told_beforehand() {
    let mut e = Engine::new(&[audio_stream(), video_stream()], None);
    let end = MediaTime { secs: u64::MAX, sub_nanos: 999_999_999 };
    assert!(e.can_take(&audio(Some(5), 10), MediaTime::zero()));
    assert!(e.can_take(&video(Some(i64::MAX), 1), MediaTime::zero()));
    assert!(e.position_fits(end));
    assert!(e.can_apply(PlayerEvent::SeekRelative(ms(1), SeekDir::Back), end));
    assert!(!e.can_apply(PlayerEvent::SeekRelative(ms(1), SeekDir::Forward), end));
    assert!(e.can_apply(PlayerEvent::TogglePause, end));
    e.clock_origin = ms(1);
    assert!(!e.position_fits(end));
    e.last_audio_end = end;
    e.initial_clock_anchored = true;
    assert!(!e.can_take(&audio(None, 10), MediaTime::zero()));
    let mut fast = video_stream();
    fast.time_base = TimeBase { num: i64::MAX, den: 1 };
    let e = Engine::new(&[fast], None);
    assert!(!e.can_take(&video(Some(i64::MAX), 1), MediaTime::zero()));
}

#[test]
fn a_failed_request_to_seek_leaves_frames_playing() {
    for reply in [SeekReply::Failed, SeekReply::Unsupported] {
        let mut e = Engine::new(&[audio_stream(), video_stream()], None);
        let r = e.apply_event(PlayerEvent::SeekAbsolute(ms(40)), MediaTime::zero());
        assert!(matches!(r, Reaction::Seek { stream: 1, pts: 40, .. }));
        assert_eq!(e.seek_pending_gen, Some(1));
        e.on_seek_reply(reply);
        assert_eq!(e.seek_pending_gen, None);
        let d = e.on_message(audio(Some(5), 10), MediaTime::zero());
        assert!(matches!(d, Delivery::QueueAudio(_)));
        e.on_message(video(Some(5), 1), MediaTime::zero());
        assert_eq!(e.video_queue.len(), 1);
    }
    let mut e = Engine::new(&[video_stream()], None);
    e.apply_event(PlayerEvent::SeekAbsolute(ms(40)), MediaTime::zero());
    e.on_seek_reply(SeekReply::Accepted);
    assert_eq!(e.seek_pending_gen, Some(1));
}

#[test]
fn a_failed_request_to_seek_leaves_the_one_before_it_in_flight() {
    for reply in [SeekReply::Failed, SeekReply::Unsupported] {
        let mut e = Engine::new(&[video_stream()], None);
        e.apply_event(PlayerEvent::SeekAbsolute(ms(40)), MediaTime::zero());
        e.on_seek_reply(SeekReply::Accepted);
        e.apply_event(PlayerEvent::SeekAbsolute(ms(900)), MediaTime::zero());
        assert_eq!(e.seek_pending_gen, Some(2));
        e.on_seek_reply(reply);
        assert_eq!(e.seek_pending_gen, Some(1));
        // What was sent before the first seek landed is still dropped.
        e.on_message(video(Some(5), 1), MediaTime::zero());
        assert_eq!(e.video_queue.len(), 0);
        e.on_message(flush(1, 40), MediaTime::zero());
        assert_eq!(e.seek_pending_gen, None);
        assert_eq!(e.position(MediaTime::zero()), ms(40));
        e.on_message(video(Some(45), 2), MediaTime::zero());
        assert_eq!(e.video_queue.len(), 1);
    }
    // A request that is accepted takes over.
    let mut e = Engine::new(&[video_stream()], None);
    for at in [40, 900] {
        e.apply_event(PlayerEvent::SeekAbsolute(ms(at)), MediaTime::zero());
        e.on_seek_reply(SeekReply::Accepted);
    }
    assert_eq!(e.seek_pending_gen, Some(2));
    e.on_message(flush(1, 40), MediaTime::zero());
    assert_eq!(e.seek_pending_gen, Some(2));
}

#[test]
fn a_sink_without_deadlines_is_shown_every_frame_in_order() {
    for raw in [ms(0), ms(500), ms(9_000)] {
        let mut e = Engine::new(&[video_stream()], None);
        let mut shown = Vec::new();
        for n in 1..=6_u32 {
            e.on_message(video(Some(n as i64 * 40), n), raw);
            if n % 3 == 0 {
                while let Some(f) = e.present_next(true, raw) {
                    shown.push(f.data);
                }
            }
        }
        e.on_message(Msg::Finished, raw);
        assert_eq!(shown, vec![1, 2, 3, 4, 5, 6]);
        assert!(e.finished(0));
    }
}

#[test]
fn a_sink_with_deadlines_is_shown_what_is_due() {
    let mut e = Engine::new(&[video_stream()], None);
    for n in 1..=4_u32 {
        e.on_message(video(Some(n as i64 * 100), n), MediaTime::zero());
    }
    // The clock is anchored at the first frame: 250 ms later the position is 350 ms.
    assert_eq!(e.present_next(false, ms(250)).map(|f| f.data), Some(3));
    assert_eq!(e.present_next(false, ms(250)).map(|f| f.data), None);
    assert_eq!(e.video_queue.len(), 1);
}

#[test]
fn unmuting_gives_back_the_volume_after_anything_else() {
    let mut e = Engine::new(&[video_stream()], None);
    e.apply_event(PlayerEvent::SetVolume(30 * VOLUME_POINT), MediaTime::zero());
    assert_eq!(
        e.apply_event(PlayerEvent::ToggleMute, MediaTime::zero()),
        Reaction::SetVolume(0)
    );
    e.apply_event(PlayerEvent::TogglePause, MediaTime::zero());
    e.on_message(video(Some(5), 1), MediaTime::zero());
    e.present_next(true, MediaTime::zero());
    assert_eq!(
        e.apply_event(PlayerEvent::ToggleMute, MediaTime::zero()),
        Reaction::SetVolume(30 * VOLUME_POINT)
    );
    e.apply_event(PlayerEvent::ToggleMute, MediaTime::zero());
    assert_eq!(
        e.apply_event(PlayerEvent::VolumeDelta(5), MediaTime::zero()),
        Reaction::Nothing
    );
    assert_eq!(
        e.apply_event(PlayerEvent::ToggleMute, MediaTime::zero()),
        Reaction::SetVolume(35 * VOLUME_POINT)
    );
}

#[test]
fn only_the_start_that_counts_has_to_fit() {
    let mut far = video_stream();
    far.time_base = TimeBase { num: i64::MAX, den: 1 };
    far.start_time = Some(i64::MAX);
    assert!(!Engine::start_fits(&[far.duplicate()]));
    assert!(Engine::start_fits(&[far, audio_stream()]));
    assert!(Engine::start_fits(&[]));
}
