use xue_hua_video_player::android::{
    AndroidApplyAction, AndroidApplyEvent, AndroidApplyPhase, AndroidApplyStep, AndroidOverlaySession,
    SurfaceWork,
};
use xue_hua_video_player::bus::{position_tick, PositionTick, POSITION_POLL_INTERVAL_MS};
use xue_hua_video_player::ios::{
    IosApplyAction, IosApplyEvent, IosApplyPhase, IosAttachRequestAction, IosAttachRequestEvent,
    IosAttachRequestPhase, IosLayerAttachOutcome, IosOverlaySession,
};
use xue_hua_video_player::pipeline::PipelineState;

fn android_scheduled() -> (AndroidOverlaySession, u64) {
    let mut session = AndroidOverlaySession::new();
    let mut stored = None;
    let n = session.notify_surface(&mut stored, 42);
    match n.work {
        SurfaceWork::Apply { work_generation, .. } => (session, work_generation),
        other => panic!("expected an apply, got {other:?}"),
    }
}

#[test]
fn position_poll_every_200_ms_stops_once_not_running() {
    assert_eq!(POSITION_POLL_INTERVAL_MS, 200);
    assert_eq!(position_tick(false, PipelineState::Playing), PositionTick::Stop);
    assert_eq!(position_tick(true, PipelineState::Playing), PositionTick::Report);
    assert_eq!(position_tick(true, PipelineState::Paused), PositionTick::Report);
    assert_eq!(position_tick(true, PipelineState::Ready), PositionTick::Skip);
    assert_eq!(position_tick(true, PipelineState::Null), PositionTick::Skip);
}

#[test]
fn android_apply_binds_then_prerolls_and_frees_slot() {
    let (mut session, g) = android_scheduled();
    assert!(session.attach_in_flight);
    let step = session.apply_step(AndroidApplyPhase::Scheduled { work_generation: g }, AndroidApplyEvent::TaskRun { stored: Some(42) });
    assert_eq!(step, AndroidApplyStep { phase: AndroidApplyPhase::Applying, action: AndroidApplyAction::ApplyWindow { handle: 42 } });
    let step = session.apply_step(step.phase, AndroidApplyEvent::WindowApplied { ok: true });
    assert_eq!(step.action, AndroidApplyAction::RunPreroll);
    assert!(session.overlay_bound);
    assert!(session.attach_in_flight);
    let step = session.apply_step(step.phase, AndroidApplyEvent::PrerollReturned { ok: true });
    assert_eq!(step.phase, AndroidApplyPhase::Done);
    assert!(session.overlay_bound);
    assert!(!session.attach_in_flight);
}

#[test]
fn android_apply_failures_unbind_and_free_slot() {
    let (mut session, g) = android_scheduled();
    let step = session.apply_step(AndroidApplyPhase::Scheduled { work_generation: g }, AndroidApplyEvent::TaskRun { stored: Some(42) });
    let step = session.apply_step(step.phase, AndroidApplyEvent::WindowApplied { ok: false });
    assert_eq!(step.phase, AndroidApplyPhase::Done);
    assert!(!session.overlay_bound);
    assert!(!session.attach_in_flight);

    let (mut session, g) = android_scheduled();
    let step = session.apply_step(AndroidApplyPhase::Scheduled { work_generation: g }, AndroidApplyEvent::TaskRun { stored: Some(42) });
    let step = session.apply_step(step.phase, AndroidApplyEvent::WindowApplied { ok: true });
    let step = session.apply_step(step.phase, AndroidApplyEvent::PrerollReturned { ok: false });
    assert_eq!(step.phase, AndroidApplyPhase::Done);
    assert!(!session.overlay_bound);
    assert!(!session.attach_in_flight);
}

#[test]
fn android_apply_stale_or_missing_window_or_undispatched() {
    let (mut session, g) = android_scheduled();
    session.set_bound(true);
    session.bump_overlay_generation();
    let step = session.apply_step(AndroidApplyPhase::Scheduled { work_generation: g }, AndroidApplyEvent::TaskRun { stored: Some(42) });
    assert_eq!(step.action, AndroidApplyAction::Finish);
    assert!(session.overlay_bound);
    assert!(!session.attach_in_flight);

    let (mut session, g) = android_scheduled();
    session.set_bound(true);
    let step = session.apply_step(AndroidApplyPhase::Scheduled { work_generation: g }, AndroidApplyEvent::TaskRun { stored: None });
    assert_eq!(step.action, AndroidApplyAction::Finish);
    assert!(!session.overlay_bound);
    assert!(!session.attach_in_flight);

    let (mut session, g) = android_scheduled();
    let step = session.apply_step(AndroidApplyPhase::Scheduled { work_generation: g }, AndroidApplyEvent::NotDispatched);
    assert_eq!(step.phase, AndroidApplyPhase::Done);
    assert!(!session.attach_in_flight);
}

#[test]
fn ios_apply_pauses_for_buffering_and_leaves() {
    let mut session = IosOverlaySession::new(true, 5, true, 0);
    session.set_buffering_active(true);
    let step = session.apply_step(0, IosApplyPhase::Start, IosApplyEvent::Begin);
    assert_eq!(step.action, IosApplyAction::Observe);
    assert!(session.state_apply_in_flight);
    let step = session.apply_step(
        0,
        step.phase,
        IosApplyEvent::Observed { desired_playing: true, current: PipelineState::Playing },
    );
    assert_eq!(step.action, IosApplyAction::PauseForBuffering);
    assert!(session.state_apply_in_flight);
    let step = session.apply_step(0, step.phase, IosApplyEvent::WorkReturned);
    assert_eq!(step.phase, IosApplyPhase::Done);
    assert!(!session.state_apply_in_flight);
}

#[test]
fn ios_apply_runs_preroll_with_pending_play() {
    let mut session = IosOverlaySession::new(true, 5, true, 0);
    session.set_pending_play_after_overlay(true);
    let step = session.apply_step(0, IosApplyPhase::Start, IosApplyEvent::Begin);
    let step = session.apply_step(
        0,
        step.phase,
        IosApplyEvent::Observed { desired_playing: false, current: PipelineState::Ready },
    );
    assert_eq!(step.action, IosApplyAction::RunPreroll { want_play: true, overlay_ready: true });
    assert!(!session.pending_play_after_overlay);
    let step = session.apply_step(0, step.phase, IosApplyEvent::WorkReturned);
    assert_eq!(step.phase, IosApplyPhase::Done);
    assert!(!session.state_apply_in_flight);
}

#[test]
fn ios_apply_skips_stale_or_running_and_unbound_attach() {
    let mut session = IosOverlaySession::new(true, 5, true, 0);
    let step = session.apply_step(1, IosApplyPhase::Start, IosApplyEvent::Begin);
    assert_eq!(step.phase, IosApplyPhase::Done);
    assert!(!session.state_apply_in_flight);

    let mut session = IosOverlaySession::new(false, 0, true, 0);
    let step = session.apply_step(0, IosApplyPhase::Start, IosApplyEvent::Begin);
    assert_eq!(step.action, IosApplyAction::RequestAttach);
    let again = session.apply_step(0, IosApplyPhase::Start, IosApplyEvent::Begin);
    assert_eq!(again.phase, IosApplyPhase::Done);
    assert!(session.state_apply_in_flight);
    let step = session.apply_step(0, step.phase, IosApplyEvent::AttachReturned);
    assert_eq!(step.phase, IosApplyPhase::Done);
    assert!(!session.state_apply_in_flight);
}

#[test]
fn ios_attach_request_claims_then_releases_unless_scheduled() {
    let mut session = IosOverlaySession::new(false, 0, true, 0);
    let step = session.attach_request_step(0, IosAttachRequestPhase::Start, IosAttachRequestEvent::Begin { stored: Some(9) });
    assert_eq!(step.action, IosAttachRequestAction::ReadShell);
    assert!(session.attach_in_flight);
    let step = session.attach_request_step(0, step.phase, IosAttachRequestEvent::ShellRead);
    assert_eq!(step.action, IosAttachRequestAction::CallAttach { host_view: 9 });
    let done = session.attach_request_step(
        0,
        step.phase,
        IosAttachRequestEvent::AttachReturned { outcome: Some(IosLayerAttachOutcome::LayerNotReady) },
    );
    assert_eq!(
        done.action,
        IosAttachRequestAction::Finish { outcome: Some(IosLayerAttachOutcome::LayerNotReady), schedule_apply: false }
    );
    assert!(!session.attach_in_flight);

    let mut session = IosOverlaySession::new(false, 0, true, 0);
    let step = session.attach_request_step(0, IosAttachRequestPhase::Start, IosAttachRequestEvent::Begin { stored: Some(9) });
    let step = session.attach_request_step(0, step.phase, IosAttachRequestEvent::ShellRead);
    let done = session.attach_request_step(
        0,
        step.phase,
        IosAttachRequestEvent::AttachReturned { outcome: Some(IosLayerAttachOutcome::Scheduled) },
    );
    assert_eq!(done.phase, IosAttachRequestPhase::Done);
    assert!(session.attach_in_flight);
}

#[test]
fn ios_attach_request_skips() {
    let skipped = IosAttachRequestAction::Finish { outcome: Some(IosLayerAttachOutcome::Skipped), schedule_apply: false };
    let mut bound = IosOverlaySession::new(true, 3, true, 0);
    let step = bound.attach_request_step(0, IosAttachRequestPhase::Start, IosAttachRequestEvent::Begin { stored: Some(3) });
    assert_eq!(
        step.action,
        IosAttachRequestAction::Finish { outcome: Some(IosLayerAttachOutcome::Skipped), schedule_apply: true }
    );
    let mut stale = IosOverlaySession::new(false, 0, false, 0);
    let step = stale.attach_request_step(0, IosAttachRequestPhase::Start, IosAttachRequestEvent::Begin { stored: Some(3) });
    assert_eq!(step.action, skipped);
    assert!(!stale.attach_in_flight);
    let mut no_host = IosOverlaySession::new(false, 0, true, 0);
    let step = no_host.attach_request_step(0, IosAttachRequestPhase::Start, IosAttachRequestEvent::Begin { stored: Some(0) });
    assert_eq!(step.action, skipped);
    assert!(!no_host.attach_in_flight);

    let mut gone = IosOverlaySession::new(false, 0, true, 0);
    let step = gone.attach_request_step(0, IosAttachRequestPhase::Start, IosAttachRequestEvent::Begin { stored: Some(3) });
    gone.bump_overlay_generation();
    let step = gone.attach_request_step(0, step.phase, IosAttachRequestEvent::ShellRead);
    assert_eq!(step.action, skipped);
    assert!(!gone.attach_in_flight);
}
