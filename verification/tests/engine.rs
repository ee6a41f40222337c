use xue_hua_video_player::engine::{
    android_size_sync_allowed, overlay_route, plan_load_autoplay, plan_play, plan_select_track,
    query_tracks, AutoPlayPlan, EngineIntent, OverlayRoute, PlayPlan, TrackRequest, VideoSizeProbe,
};
use xue_hua_video_player::events::{MediaTrack, PlayerEventKind, PlayerState, TrackType};
use xue_hua_video_player::pipeline::{PipelineCapabilities, SourceKind, TargetPlatform};
use xue_hua_video_player::resume::{begin_resume, ResumeAction};
use xue_hua_video_player::tracks::TrackCache;

#[test]
fn fresh_intent() {
    let intent = EngineIntent::new();
    assert!(!intent.replay.desired_playing);
    assert!(!intent.replay.at_eos);
    assert!(intent.replay.running);
    assert!(!intent.looping);
    assert!(intent.seekable);
}

#[test]
fn load_records_autoplay_and_seekability() {
    let mut intent = EngineIntent::new();
    intent.begin_load(false, false);
    assert!(!intent.replay.desired_playing);
    assert!(!intent.seekable);
    intent.begin_load(true, true);
    assert!(intent.replay.desired_playing);
    assert!(intent.seekable);
}

#[test]
fn play_pause_stop() {
    let mut intent = EngineIntent::new();
    intent.begin_play();
    assert!(intent.replay.desired_playing);
    intent.pause();
    assert!(!intent.replay.desired_playing);
    intent.begin_play();
    intent.replay.at_eos = true;
    let event = intent.stop();
    assert_eq!(event.kind, PlayerEventKind::StateChanged);
    assert_eq!(event.state, PlayerState::Stopped);
    assert!(!intent.replay.desired_playing);
    assert!(!intent.replay.at_eos);
}

#[test]
fn seek_reports_position_then_buffering_while_playing() {
    let mut intent = EngineIntent::new();
    intent.begin_play();
    intent.replay.at_eos = true;
    let events = intent.seek(3000);
    assert_eq!(events.len(), 2);
    assert_eq!(events[0].kind, PlayerEventKind::PositionChanged);
    assert_eq!(events[0].position_ms, 3000);
    assert_eq!(events[1].state, PlayerState::Buffering);
    assert!(!intent.replay.at_eos);
    intent.pause();
    let events = intent.seek(10);
    assert_eq!(events.len(), 1);
    assert_eq!(events[0].position_ms, 10);
}

#[test]
fn play_after_seek_from_eos_does_not_replay() {
    let mut intent = EngineIntent::new();
    intent.replay.at_eos = true;
    let _ = intent.seek(500);
    let action = begin_resume(&mut intent.replay, true, SourceKind::Asset);
    assert_eq!(action, ResumeAction::SetPlaying);
}

#[test]
fn looping_and_shutdown() {
    let mut intent = EngineIntent::new();
    intent.set_looping(true);
    assert!(intent.looping);
    intent.shut_down();
    assert!(!intent.replay.running);
    assert!(intent.looping);
}

#[test]
fn autoplay_plans() {
    assert_eq!(plan_load_autoplay(TargetPlatform::Linux, false, false), AutoPlayPlan::Idle);
    assert_eq!(plan_load_autoplay(TargetPlatform::Macos, true, false), AutoPlayPlan::PlayNow);
    assert_eq!(plan_load_autoplay(TargetPlatform::Android, true, false), AutoPlayPlan::DeferUntilOverlay);
    assert_eq!(plan_load_autoplay(TargetPlatform::Android, true, true), AutoPlayPlan::PlayNow);
}

#[test]
fn play_plans() {
    assert_eq!(plan_play(TargetPlatform::Android, false, false), PlayPlan::DeferUntilOverlay);
    assert_eq!(plan_play(TargetPlatform::Android, true, false), PlayPlan::Resume { rebind_first: true });
    assert_eq!(plan_play(TargetPlatform::Android, true, true), PlayPlan::Resume { rebind_first: false });
    assert_eq!(plan_play(TargetPlatform::Ios, false, false), PlayPlan::Resume { rebind_first: false });
}

#[test]
fn track_requests() {
    let playbin = PipelineCapabilities::playbin();
    let appsrc = PipelineCapabilities::appsrc();
    assert_eq!(plan_select_track(appsrc, 1, TrackType::Audio, true), TrackRequest::Ignore);
    assert_eq!(plan_select_track(playbin, 1, TrackType::Subtitle, false), TrackRequest::DisableSubtitles);
    assert_eq!(
        plan_select_track(playbin, 1, TrackType::Audio, false),
        TrackRequest::Select { track_type: TrackType::Audio, track_id: 1 }
    );
    assert_eq!(
        plan_select_track(playbin, 2, TrackType::Subtitle, true),
        TrackRequest::Select { track_type: TrackType::Subtitle, track_id: 2 }
    );
}

#[test]
fn tracks_hidden_without_track_support() {
    let mut cache = TrackCache::default();
    cache.push(
        MediaTrack { id: 0, track_type: TrackType::Audio, language: String::new(), label: "a".into(), selected: true },
        "a0".into(),
    );
    assert_eq!(query_tracks(PipelineCapabilities::playbin(), &cache).len(), 1);
    assert!(query_tracks(PipelineCapabilities::appsrc(), &cache).is_empty());
}

#[test]
fn overlay_routes() {
    assert_eq!(overlay_route(TargetPlatform::Macos), OverlayRoute::Macos);
    assert_eq!(overlay_route(TargetPlatform::Android), OverlayRoute::Mobile);
    assert_eq!(overlay_route(TargetPlatform::Ios), OverlayRoute::Mobile);
    assert_eq!(overlay_route(TargetPlatform::Windows), OverlayRoute::Desktop);
    assert_eq!(overlay_route(TargetPlatform::Linux), OverlayRoute::Desktop);
}

#[test]
fn size_probe_reacts_once_per_size() {
    let mut probe = VideoSizeProbe::new();
    let r = probe.on_caps(TargetPlatform::Linux, 1920, 1080);
    let e = r.size_event.expect("size event");
    assert_eq!(e.kind, PlayerEventKind::VideoSize);
    assert_eq!((e.width, e.height), (1920, 1080));
    assert!(r.expose_overlay);
    assert!(!r.sync_overlay_size);
    let again = probe.on_caps(TargetPlatform::Linux, 1920, 1080);
    assert!(again.size_event.is_none());
    assert!(!again.expose_overlay);
    let changed = probe.on_caps(TargetPlatform::Linux, 1280, 720);
    assert!(changed.size_event.is_some());
    assert!(!changed.expose_overlay);
}

#[test]
fn size_probe_android_syncs_and_apple_never_exposes() {
    let mut probe = VideoSizeProbe::new();
    let r = probe.on_caps(TargetPlatform::Android, 640, 480);
    assert!(r.sync_overlay_size);
    assert!(r.expose_overlay);
    let mut apple = VideoSizeProbe::new();
    let r = apple.on_caps(TargetPlatform::Ios, 640, 480);
    assert!(!r.expose_overlay);
    assert!(!r.sync_overlay_size);
    let mut zero = VideoSizeProbe::new();
    let r = zero.on_caps(TargetPlatform::Android, 0, 480);
    assert!(r.size_event.is_some());
    assert!(!r.sync_overlay_size);
}

#[test]
fn android_size_sync_guard() {
    assert!(android_size_sync_allowed(2, 2, 1));
    assert!(!android_size_sync_allowed(1, 500, 1));
    assert!(!android_size_sync_allowed(500, 1, 1));
    assert!(!android_size_sync_allowed(500, 500, 0));
}
