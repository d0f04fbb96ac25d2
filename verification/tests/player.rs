use oxideplay::clock::MediaTime;
use oxideplay::engine::VOLUME_POINT;
use oxideplay::output::{
    audio_headroom_samples, audio_queue_len_samples, fallback_step, materialised_step,
    refusal_text, video_drains_immediately, window_step, Composite, LeaseKind, LeaseStep, Surface,
};
use oxideplay::profile::{ProfSection, ProfileBucket};
use oxideplay::sink::{env_flag, sink_reply, ChannelSink, LeaseInfo, SinkError, SinkOp};
use oxideplay::status::{status_line, volume_percent, StatusAction, StatusClock};
use oxideplay::tick::{Phase, TickFacts};

fn ms(n: u64) -> MediaTime {
    MediaTime::from_millis(n)
}

fn arena() -> LeaseInfo {
    LeaseInfo::Arena { format: "Yuv420P".to_string(), width: 1280, height: 720, pts: None }
}

#[test]
fn the_wall_clock_stands_while_paused() {
    let mut c = Composite::new(true, false, ms(1_000));
    assert_eq!(c.master_clock_pos(None, ms(1_250)), ms(250));
    c.set_paused(true, ms(1_500));
    assert_eq!(c.master_clock_pos(None, ms(9_000)), ms(500));
    c.set_paused(true, ms(9_000));
    assert_eq!(c.master_clock_pos(None, ms(9_500)), ms(500));
    c.set_paused(false, ms(10_000));
    assert_eq!(c.master_clock_pos(None, ms(10_100)), ms(600));
    c.set_paused(false, ms(10_200));
    assert_eq!(c.master_clock_pos(None, ms(10_300)), ms(800));
}

#[test]
fn the_audio_clock_is_the_master() {
    let c = Composite::new(false, true, ms(0));
    assert_eq!(c.master_clock_pos(Some(ms(42)), ms(9_000)), ms(42));
    // The wall clock does not count, however far it has gone.
    let end = MediaTime { secs: u64::MAX, sub_nanos: 999_999_999 };
    let mut c = Composite::new(false, true, ms(0));
    c.wall_accum = ms(2);
    assert!(!c.clock_fits(end));
    assert_eq!(c.master_clock_pos(Some(ms(42)), end), ms(42));
}

#[test]
fn missing_halves_have_defaults() {
    assert_eq!(audio_queue_len_samples(None), 0);
    assert_eq!(audio_queue_len_samples(Some(5)), 5);
    assert_eq!(audio_headroom_samples(None), u64::MAX);
    assert_eq!(audio_headroom_samples(Some(5)), 5);
    assert!(!video_drains_immediately(None));
    assert!(video_drains_immediately(Some(true)));
    assert!(!video_drains_immediately(Some(false)));
}

#[test]
fn default_video_engine_adapter_borrows_owned_cpu_frame_without_copy() {
    assert_eq!(fallback_step(LeaseKind::CpuVideo), LeaseStep::Present);
}

#[test]
fn leases_take_the_most_direct_way() {
    assert_eq!(fallback_step(LeaseKind::CpuOther), LeaseStep::Reject);
    assert_eq!(fallback_step(LeaseKind::Arena), LeaseStep::Materialise);
    assert_eq!(fallback_step(LeaseKind::Hardware { vdpau: true }), LeaseStep::Materialise);
    assert_eq!(window_step(LeaseKind::CpuVideo, false, true), LeaseStep::Present);
    assert_eq!(window_step(LeaseKind::CpuOther, true, true), LeaseStep::Reject);
    assert_eq!(window_step(LeaseKind::Arena, true, false), LeaseStep::TryArena);
    assert_eq!(window_step(LeaseKind::Arena, false, false), LeaseStep::Done);
    let hw = LeaseKind::Hardware { vdpau: true };
    assert_eq!(window_step(hw, true, true), LeaseStep::TryVdpau);
    assert_eq!(window_step(hw, false, true), LeaseStep::Done);
    assert_eq!(window_step(hw, true, false), LeaseStep::Materialise);
    assert_eq!(
        window_step(LeaseKind::Hardware { vdpau: false }, true, true),
        LeaseStep::Materialise
    );
    assert_eq!(materialised_step(true), LeaseStep::Present);
    assert_eq!(materialised_step(false), LeaseStep::Reject);
}

#[test]
fn refusals_name_the_surface() {
    assert_eq!(
        refusal_text(Surface::Driver, false),
        "oxideplay: video presentation received a non-video frame lease"
    );
    assert_eq!(
        refusal_text(Surface::Engine, true),
        "oxideplay: video engine materialised a non-video frame"
    );
    assert_eq!(
        refusal_text(Surface::Winit, false),
        "oxideplay: winit video engine received a non-video frame lease"
    );
}

#[test]
fn the_profiler_rolls_up_once_a_second() {
    let mut p = ProfileBucket::new(true, ms(0));
    p.record(ProfSection::PollEvents, MediaTime::from_micros(10));
    p.record(ProfSection::PollEvents, MediaTime::from_micros(21));
    p.record(ProfSection::Total, ms(16));
    assert!(p.maybe_flush(ms(999)).is_none());
    assert_eq!(
        p.maybe_flush(ms(1_000)).unwrap(),
        "oxideplay: PROFILE poll=avg16us/max21us pump=avg0us/max0us pres=avg0us/max0us \
         stat=avg0us/max0us slep=avg0us/max0us total=avg16000us/max16000us ticks=1"
    );
    assert_eq!(p.stats[0].count, 0);
    assert!(p.maybe_flush(ms(1_999)).is_none());
    assert!(p.maybe_flush(ms(2_000)).is_some());
}

#[test]
fn a_disabled_profiler_records_nothing() {
    let mut p = ProfileBucket::new(false, ms(0));
    p.record(ProfSection::Sleep, ms(5));
    assert_eq!(p.stats[4].count, 0);
    assert!(p.maybe_flush(ms(9_000)).is_none());
}

#[test]
fn the_profiler_keeps_the_worst_time() {
    let mut p = ProfileBucket::new(true, ms(0));
    for n in [3, 9, 4] {
        p.record(ProfSection::Present, MediaTime::from_micros(n));
    }
    assert_eq!((p.stats[2].count, p.stats[2].nanos, p.stats[2].max_nanos), (3, 16_000, 9_000));
    assert!(p.stats[2].nanos <= p.stats[2].count * p.stats[2].max_nanos);
}

#[test]
fn totals_that_cannot_be_held_are_told_beforehand() {
    let mut p = ProfileBucket::new(true, ms(0));
    assert!(p.can_record(ProfSection::Status, ms(1)));
    p.stats[3].nanos = u64::MAX - 999_999;
    assert!(!p.can_record(ProfSection::Status, ms(1)));
    assert!(p.can_record(ProfSection::Sleep, ms(1)));
    p.enabled = false;
    assert!(p.can_record(ProfSection::Status, ms(1)));
    let end = MediaTime { secs: u64::MAX, sub_nanos: 999_999_999 };
    let mut c = Composite::new(true, false, ms(1));
    assert!(c.clock_fits(end));
    c.wall_accum = ms(2);
    assert!(!c.clock_fits(end));
}

#[test]
fn the_status_is_printed_once_a_second() {
    let mut c = StatusClock { last_status: ms(0) };
    assert_eq!(c.draw_status(ms(500), false), StatusAction::Nothing);
    assert_eq!(c.draw_status(ms(500), true), StatusAction::Draw);
    assert_eq!(c.draw_status(ms(1_000), false), StatusAction::Print);
    assert_eq!(c.draw_status(ms(1_500), false), StatusAction::Nothing);
    assert_eq!(c.draw_status(ms(2_500), true), StatusAction::Draw);
    assert_eq!(c.last_status, ms(2_500));
}

#[test]
fn the_status_line_shows_the_volume_in_percent() {
    assert_eq!(volume_percent(100 * VOLUME_POINT), 100);
    assert_eq!(volume_percent(7 * VOLUME_POINT + VOLUME_POINT / 2), 8);
    assert_eq!(volume_percent(7 * VOLUME_POINT + VOLUME_POINT / 2 - 1), 7);
    assert_eq!(
        status_line("00:01", Some("01:00"), 5 * VOLUME_POINT, "A+0", false),
        "oxideplay: 00:01 / 01:00  vol   5%  A+0"
    );
    assert_eq!(
        status_line("00:01", None, 100 * VOLUME_POINT, "", true),
        "oxideplay: 00:01 / ?  vol 100%    [paused]"
    );
}

#[test]
fn environment_flags_are_on_unless_empty_or_zero() {
    assert!(env_flag(Some("1")) && env_flag(Some("00")) && env_flag(Some("no")));
    assert!(!env_flag(None) && !env_flag(Some("")) && !env_flag(Some("0")));
}

#[test]
fn the_sink_logs_the_first_frames_and_then_a_few() {
    let mut s = ChannelSink::new(Some("1"));
    assert_eq!(s.on_start(2).unwrap(), "[sink] start: 2 streams");
    let mut logged = Vec::new();
    for n in 1..=100 {
        if let Some(line) = s.on_frame(&LeaseInfo::Audio { samples: 1024, pts: Some(-7) }) {
            if n == 1 {
                assert_eq!(line, "[sink] audio frame #1 samples=1024 pts=Some(-7)");
            }
            logged.push(n);
        }
    }
    assert_eq!(logged, vec![1, 2, 3, 4, 5, 50, 100]);
    assert_eq!(
        s.on_frame(&LeaseInfo::Video { planes: 3, pts: None }).unwrap(),
        "[sink] video frame #1 planes=3 pts=None"
    );
    let hw = LeaseInfo::Hardware {
        backend: "vdpau".to_string(),
        width: 1920,
        height: 1080,
        pts: Some(9),
    };
    assert_eq!(
        s.on_frame(&hw).unwrap(),
        "[sink] video frame #2 hardware=vdpau 1920x1080 pts=Some(9)"
    );
    assert_eq!(
        s.on_frame(&arena()).unwrap(),
        "[sink] video frame #3 arena=Yuv420P 1280x720 pts=None"
    );
    assert!(s.on_frame(&LeaseInfo::OtherFrame).is_none());
    assert_eq!((s.seen_audio, s.seen_video), (100, 3));
    assert_eq!(s.on_finish().unwrap(), "[sink] finish: total audio=100 video=3");
}

#[test]
fn a_quiet_sink_counts_nothing() {
    let mut s = ChannelSink::new(None);
    assert!(s.on_start(1).is_none());
    assert!(s.on_frame(&arena()).is_none());
    assert_eq!(s.seen_video, 0);
    assert!(s.on_finish().is_none());
}

#[test]
fn the_sink_says_when_the_player_is_gone() {
    assert_eq!(sink_reply(SinkOp::Start, true), Ok(()));
    assert_eq!(sink_reply(SinkOp::Start, false), Err(SinkError::GoneBeforeStart));
    assert_eq!(sink_reply(SinkOp::Frame, false), Err(SinkError::Gone));
    assert_eq!(sink_reply(SinkOp::Barrier, false), Err(SinkError::GoneDuringBarrier));
    assert_eq!(sink_reply(SinkOp::Packet, true), Err(SinkError::NeedsFrames));
    assert_eq!(sink_reply(SinkOp::Finish, false), Ok(()));
    assert_eq!(SinkError::Gone.text(), "oxideplay: engine receiver dropped");
    assert_eq!(
        SinkError::GoneBeforeStart.text(),
        "oxideplay: engine receiver dropped before start"
    );
    assert_eq!(
        SinkError::GoneDuringBarrier.text(),
        "oxideplay: engine receiver dropped during barrier"
    );
    assert_eq!(
        SinkError::NeedsFrames.text(),
        "oxideplay: @display sink needs decoded frames; remove `codec` or set it to the source \
         codec with a decoder"
    );
}

fn phases(facts: TickFacts) -> Vec<Phase> {
    let mut seen = vec![Phase::Announce];
    loop {
        let next = seen[seen.len() - 1].next(facts);
        if next == Phase::Announce || next == Phase::Done {
            return seen;
        }
        seen.push(next);
    }
}

#[test]
fn a_tick_passes_its_phases_in_order() {
    let facts = TickFacts { quit: false, paused: false, finished: false };
    assert_eq!(
        phases(facts),
        vec![
            Phase::Announce,
            Phase::Overlay,
            Phase::Position,
            Phase::Playback,
            Phase::Gather,
            Phase::Apply,
            Phase::Pump,
            Phase::Present,
            Phase::Status,
            Phase::Exit,
            Phase::Sleep,
        ]
    );
    let paused = phases(TickFacts { paused: true, ..facts });
    assert!(!paused.contains(&Phase::Pump) && !paused.contains(&Phase::Present));
    assert!(paused.contains(&Phase::Status) && paused.contains(&Phase::Sleep));
    assert_eq!(phases(TickFacts { quit: true, ..facts }).last(), Some(&Phase::Apply));
    assert_eq!(phases(TickFacts { finished: true, ..facts }).last(), Some(&Phase::Exit));
    assert_eq!(Phase::Done.next(facts), Phase::Done);
}
