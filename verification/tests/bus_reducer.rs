use xue_hua_video_player::bus::{
    apply_bus_replay_patch, map_playback_state, position_poll_reports, reduce_bus_message,
    reduce_bus_message_for, state_changed_message, BusMessage, BusPlatform, BusPlaybackState,
    BusReplayPatch, BusSideEffect, BusSnapshot, PlayReplayContext, dispatch_plan, DispatchStep,
};
use xue_hua_video_player::events::{PlayerEventKind, PlayerState};
use xue_hua_video_player::pipeline::PipelineState;

fn snap(desired_playing: bool, looping: bool, is_playbin: bool, overlay_bound: bool) -> BusSnapshot {
    BusSnapshot::new(desired_playing, looping, is_playbin, overlay_bound)
}

fn reduce_ios(message: BusMessage, snapshot: BusSnapshot) -> xue_hua_video_player::bus::BusReduction {
    reduce_bus_message_for(BusPlatform::Ios, message, snapshot)
}

#[test]
fn eos_looping_seeks_and_clears_at_eos() {
    let r = reduce_bus_message(BusMessage::Eos, snap(true, true, true, true));
    assert!(r.events.is_empty());
    assert_eq!(r.effects, vec![BusSideEffect::EosLoopSeek]);
    assert_eq!(r.replay_patch.at_eos, Some(false));
}

#[test]
fn eos_non_looping_completes() {
    let r = reduce_bus_message(BusMessage::Eos, snap(true, false, true, true));
    assert_eq!(r.events.len(), 2);
    assert_eq!(r.events[0].kind, PlayerEventKind::Eos);
    assert_eq!(r.events[1].state, PlayerState::Completed);
    assert_eq!(r.replay_patch.at_eos, Some(true));
    assert_eq!(r.replay_patch.desired_playing, Some(false));
}

#[test]
fn error_emits_error_state() {
    let r = reduce_bus_message(
        BusMessage::Error {
            message: "boom".into(),
        },
        snap(true, false, true, true),
    );
    assert_eq!(r.events.len(), 2);
    assert_eq!(r.events[0].message, "boom");
    assert_eq!(r.events[1].state, PlayerState::Error);
}

#[test]
fn buffering_ignored_when_not_desired_playing() {
    let r = reduce_bus_message(
        BusMessage::Buffering { percent: 50 },
        snap(false, false, true, true),
    );
    assert_eq!(r.events.len(), 1);
    assert_eq!(r.events[0].buffering_percent, 50);
    assert!(r.effects.is_empty());
}

#[test]
fn buffering_pauses_below_100() {
    let r = reduce_bus_message(
        BusMessage::Buffering { percent: 50 },
        snap(true, false, true, true),
    );
    assert_eq!(r.events.len(), 2);
    assert_eq!(r.events[1].state, PlayerState::Buffering);
    assert_eq!(r.effects, vec![BusSideEffect::PausePipelineForBuffering]);
}

#[test]
fn buffering_resumes_at_100() {
    let r = reduce_bus_message(
        BusMessage::Buffering { percent: 100 },
        snap(true, false, true, true),
    );
    assert_eq!(r.events.len(), 1);
    assert_eq!(r.effects, vec![BusSideEffect::ResumePipelineAfterBuffering]);
}

#[test]
fn ios_buffering_100_emits_playing_when_overlay_ready() {
    let r = reduce_ios(
        BusMessage::Buffering { percent: 100 },
        snap(true, false, true, true),
    );
    assert!(r.events.iter().any(|e| e.state == PlayerState::Playing));
    assert!(r.events.iter().any(|e| e.buffering_percent == 100));
    assert!(r
        .effects
        .contains(&BusSideEffect::IosSetBufferingActive(false)));
}

#[test]
fn ios_playbin_rebuffer_cycle_recovers_to_playing() {
    let snapshot = snap(true, false, true, true);
    let _ = reduce_ios(BusMessage::Buffering { percent: 30 }, snapshot);
    let _ = reduce_ios(BusMessage::Buffering { percent: 100 }, snapshot);
    let r = reduce_ios(BusMessage::Buffering { percent: 20 }, snapshot);
    assert!(r.events.iter().any(|e| e.state == PlayerState::Buffering));
    let r = reduce_ios(BusMessage::Buffering { percent: 100 }, snapshot);
    assert!(r.events.iter().any(|e| e.state == PlayerState::Playing));
    assert!(r.events.iter().any(|e| e.buffering_percent == 100));
}

#[test]
fn ios_buffering_active_below_100() {
    let r = reduce_ios(
        BusMessage::Buffering { percent: 30 },
        snap(true, false, true, true),
    );
    assert!(r
        .effects
        .contains(&BusSideEffect::IosSetBufferingActive(true)));
    assert!(r.events.iter().any(|e| e.state == PlayerState::Buffering));
}

#[test]
fn clock_lost_recovers_when_desired_playing() {
    let r = reduce_bus_message(BusMessage::ClockLost, snap(true, false, true, true));
    assert_eq!(r.effects, vec![BusSideEffect::ClockLostRecover]);
}

#[test]
fn ios_clock_lost_schedules_apply() {
    let r = reduce_ios(BusMessage::ClockLost, snap(true, false, true, false));
    assert!(r
        .effects
        .contains(&BusSideEffect::IosSetPendingPlayAfterOverlay));
    assert!(r.effects.contains(&BusSideEffect::IosScheduleApply));
    assert!(!r.effects.contains(&BusSideEffect::ClockLostRecover));
}

#[test]
fn state_changed_maps_paused_to_buffering_when_desired_playing() {
    let r = reduce_bus_message(
        BusMessage::StateChanged {
            is_pipeline: true,
            old: BusPlaybackState::Ready,
            current: BusPlaybackState::Paused,
            duration_ms: Some(5000),
        },
        snap(true, false, true, true),
    );
    assert!(!r.events.iter().any(|e| e.state == PlayerState::Paused));
    assert!(r.events.iter().any(|e| e.state == PlayerState::Buffering));
    assert!(r.events.iter().any(|e| e.duration_ms == 5000));
}

#[test]
fn state_changed_emits_playing_buffering_100() {
    let r = reduce_bus_message(
        BusMessage::StateChanged {
            is_pipeline: true,
            old: BusPlaybackState::Paused,
            current: BusPlaybackState::Playing,
            duration_ms: None,
        },
        snap(true, false, true, true),
    );
    assert!(r.events.iter().any(|e| e.state == PlayerState::Playing));
    assert!(r.events.iter().any(|e| e.buffering_percent == 100));
}

#[test]
fn stream_collection_updates_tracks_for_playbin() {
    let r = reduce_bus_message(BusMessage::StreamCollection, snap(true, false, true, true));
    assert_eq!(r.events.len(), 1);
    assert_eq!(r.effects, vec![BusSideEffect::TrackCacheSyncFromCollection]);
}

#[test]
fn stream_collection_ignored_for_asset() {
    let r = reduce_bus_message(BusMessage::StreamCollection, snap(true, false, false, true));
    assert!(r.events.is_empty());
    assert!(r.effects.is_empty());
}

#[test]
fn async_done_emits_position_when_desired_playing() {
    let r = reduce_bus_message(
        BusMessage::AsyncDone {
            position_ms: Some(1234),
        },
        snap(true, false, true, true),
    );
    assert!(r.events.iter().any(|e| e.position_ms == 1234));
}

#[test]
fn async_done_silent_without_play_intent() {
    let r = reduce_bus_message(
        BusMessage::AsyncDone {
            position_ms: Some(1234),
        },
        snap(false, false, true, true),
    );
    assert!(r.events.is_empty());
    assert!(r.effects.is_empty());
}

#[test]
fn ios_async_done_schedules_attach() {
    let r = reduce_ios(BusMessage::AsyncDone { position_ms: None }, snap(true, false, true, true));
    assert!(r.events.is_empty());
    assert_eq!(r.effects, vec![BusSideEffect::IosScheduleAttach]);
}

#[test]
fn ios_ready_to_paused_schedules_attach() {
    let r = reduce_ios(
        BusMessage::StateChanged {
            is_pipeline: true,
            old: BusPlaybackState::Ready,
            current: BusPlaybackState::Paused,
            duration_ms: None,
        },
        snap(false, false, true, true),
    );
    assert_eq!(r.events.len(), 1);
    assert_eq!(r.events[0].state, PlayerState::Paused);
    assert_eq!(r.effects, vec![BusSideEffect::IosScheduleAttach]);
}

#[test]
fn ios_buffering_100_without_overlay_waits_for_bind() {
    let r = reduce_ios(BusMessage::Buffering { percent: 100 }, snap(true, false, true, false));
    assert_eq!(r.events.len(), 1);
    assert_eq!(
        r.effects,
        vec![
            BusSideEffect::IosSetBufferingActive(false),
            BusSideEffect::IosSetPendingPlayAfterOverlay,
            BusSideEffect::IosScheduleApply,
        ]
    );
}

#[test]
fn non_pipeline_state_change_ignored() {
    let r = reduce_bus_message(
        BusMessage::StateChanged {
            is_pipeline: false,
            old: BusPlaybackState::Ready,
            current: BusPlaybackState::Playing,
            duration_ms: Some(10),
        },
        snap(true, false, true, true),
    );
    assert!(r.events.is_empty());
    assert!(r.effects.is_empty());
}

#[test]
fn duration_changed_reports_duration() {
    let r = reduce_bus_message(
        BusMessage::DurationChanged { duration_ms: 42_000 },
        snap(false, false, true, true),
    );
    assert_eq!(r.events.len(), 1);
    assert_eq!(r.events[0].kind, PlayerEventKind::DurationChanged);
    assert_eq!(r.events[0].duration_ms, 42_000);
}

#[test]
fn streams_selected_marks_tracks_for_playbin() {
    let r = reduce_bus_message(BusMessage::StreamsSelected, snap(false, false, true, false));
    assert_eq!(r.events.len(), 1);
    assert_eq!(r.events[0].kind, PlayerEventKind::TracksChanged);
    assert_eq!(r.effects, vec![BusSideEffect::TrackCacheMarkSelected]);
}

#[test]
fn replay_patch_applies_only_set_flags() {
    let mut flags = PlayReplayContext { desired_playing: true, at_eos: false, running: true };
    apply_bus_replay_patch(BusReplayPatch { at_eos: Some(true), desired_playing: None }, &mut flags);
    assert_eq!(flags, PlayReplayContext { desired_playing: true, at_eos: true, running: true });
    apply_bus_replay_patch(BusReplayPatch { at_eos: None, desired_playing: Some(false) }, &mut flags);
    assert_eq!(flags, PlayReplayContext { desired_playing: false, at_eos: true, running: true });
}

#[test]
fn eos_patch_then_error_keeps_flags() {
    let mut flags = PlayReplayContext { desired_playing: true, at_eos: false, running: true };
    let eos = reduce_bus_message(BusMessage::Eos, snap(true, false, true, true));
    apply_bus_replay_patch(eos.replay_patch, &mut flags);
    let err = reduce_bus_message(BusMessage::Error { message: "x".into() }, snap(false, false, true, true));
    apply_bus_replay_patch(err.replay_patch, &mut flags);
    assert_eq!(flags, PlayReplayContext { desired_playing: false, at_eos: true, running: true });
}

#[test]
fn state_mapping_and_poll() {
    assert_eq!(map_playback_state(PipelineState::VoidPending), BusPlaybackState::Null);
    assert_eq!(map_playback_state(PipelineState::Playing), BusPlaybackState::Playing);
    assert_eq!(BusPlaybackState::Paused.to_player_state(), PlayerState::Paused);
    assert!(position_poll_reports(PipelineState::Paused));
    assert!(!position_poll_reports(PipelineState::Ready));
    let m = state_changed_message(true, PipelineState::Ready, PipelineState::Paused, Some(7));
    assert_eq!(
        m,
        BusMessage::StateChanged {
            is_pipeline: true,
            old: BusPlaybackState::Ready,
            current: BusPlaybackState::Paused,
            duration_ms: Some(7),
        }
    );
}

#[test]
fn dispatch_applies_patch_before_events() {
    let r = reduce_bus_message(BusMessage::Eos, snap(true, false, true, true));
    assert_eq!(
        dispatch_plan(true, &r),
        vec![
            DispatchStep::ApplyReplayPatch,
            DispatchStep::EmitEvent { index: 0 },
            DispatchStep::EmitEvent { index: 1 },
        ]
    );
}

#[test]
fn dispatch_runs_effects_after_events() {
    let r = reduce_bus_message(BusMessage::Buffering { percent: 40 }, snap(true, false, true, true));
    let plan = dispatch_plan(true, &r);
    assert_eq!(plan.len(), 1 + r.events.len() + r.effects.len());
    assert_eq!(plan[0], DispatchStep::ApplyReplayPatch);
    assert!(!r.effects.is_empty());
    for (i, _) in r.events.iter().enumerate() {
        assert_eq!(plan[1 + i], DispatchStep::EmitEvent { index: i });
    }
    for (j, _) in r.effects.iter().enumerate() {
        assert_eq!(plan[1 + r.events.len() + j], DispatchStep::ApplySideEffect { index: j });
    }
}

#[test]
fn dispatch_does_nothing_once_stopped() {
    let r = reduce_bus_message(BusMessage::Eos, snap(true, false, true, true));
    assert!(dispatch_plan(false, &r).is_empty());
}
