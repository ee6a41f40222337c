use xue_hua_video_player::pipeline::{PipelineSnapshot, PipelineState};
use xue_hua_video_player::preroll::{
    decide_preroll_action, run_bind_preroll_loop, PrerollAction, PrerollEffects,
    PrerollResumeOutcome, RecordingPrerollEffects, MAX_BIND_PREROLL_STEPS,
};

const READY_URI: PipelineSnapshot = PipelineSnapshot {
    current: PipelineState::Ready,
    pending: PipelineState::VoidPending,
    has_pending_media: true,
};

const PAUSED: PipelineSnapshot = PipelineSnapshot {
    current: PipelineState::Paused,
    pending: PipelineState::VoidPending,
    has_pending_media: true,
};

const PAUSED_PENDING_PLAY: PipelineSnapshot = PipelineSnapshot {
    current: PipelineState::Paused,
    pending: PipelineState::Playing,
    has_pending_media: true,
};

const PLAYING: PipelineSnapshot = PipelineSnapshot {
    current: PipelineState::Playing,
    pending: PipelineState::VoidPending,
    has_pending_media: true,
};

const READY_NO_MEDIA: PipelineSnapshot = PipelineSnapshot {
    current: PipelineState::Ready,
    pending: PipelineState::VoidPending,
    has_pending_media: false,
};

#[test]
fn overlay_not_ready_defer() {
    assert_eq!(decide_preroll_action(READY_URI, false, false), PrerollAction::Defer);
    assert_eq!(decide_preroll_action(READY_URI, true, false), PrerollAction::Defer);
}

#[test]
fn load_path_pause_preroll_without_want_play() {
    assert_eq!(decide_preroll_action(READY_URI, false, true), PrerollAction::PausePreroll);
}

#[test]
fn load_path_noop_when_no_media() {
    assert_eq!(decide_preroll_action(READY_NO_MEDIA, false, true), PrerollAction::Noop);
}

#[test]
fn bind_path_ready_then_resume_when_want_play() {
    assert_eq!(decide_preroll_action(READY_URI, true, true), PrerollAction::PausePreroll);
    assert_eq!(decide_preroll_action(PAUSED, true, true), PrerollAction::ResumePlaying);
}

#[test]
fn bind_path_resume_while_pending() {
    assert_eq!(
        decide_preroll_action(PAUSED_PENDING_PLAY, true, true),
        PrerollAction::ResumePlaying
    );
}

#[test]
fn bind_path_noop_when_pending_not_paused() {
    assert_eq!(
        decide_preroll_action(
            PipelineSnapshot {
                current: PipelineState::Ready,
                pending: PipelineState::Playing,
                has_pending_media: true,
            },
            true,
            true
        ),
        PrerollAction::Noop
    );
}

#[test]
fn bind_path_noop_when_playing() {
    assert_eq!(decide_preroll_action(PLAYING, true, true), PrerollAction::Noop);
}

#[test]
fn bind_path_noop_when_not_want_play_and_already_paused() {
    assert_eq!(decide_preroll_action(PAUSED, false, true), PrerollAction::Noop);
}

#[test]
fn bind_path_noop_when_not_want_play_pending() {
    assert_eq!(decide_preroll_action(PAUSED_PENDING_PLAY, false, true), PrerollAction::Noop);
}

#[test]
fn table_driven_matrix() {
    let cases: &[(PipelineSnapshot, bool, bool, PrerollAction)] = &[
        (READY_URI, false, true, PrerollAction::PausePreroll),
        (READY_URI, false, false, PrerollAction::Defer),
        (READY_URI, true, true, PrerollAction::PausePreroll),
        (PAUSED, true, true, PrerollAction::ResumePlaying),
        (PAUSED, false, true, PrerollAction::Noop),
        (PAUSED_PENDING_PLAY, true, true, PrerollAction::ResumePlaying),
        (PLAYING, true, true, PrerollAction::Noop),
        (READY_NO_MEDIA, true, true, PrerollAction::Noop),
    ];
    for (snapshot, want_play, overlay_ready, expected) in cases {
        assert_eq!(
            decide_preroll_action(*snapshot, *want_play, *overlay_ready),
            *expected,
            "snapshot={snapshot:?} want_play={want_play} overlay_ready={overlay_ready}"
        );
    }
}

#[test]
fn bind_loop_pauses_then_resumes() {
    let mut effects = RecordingPrerollEffects::with_snapshots(vec![READY_URI, PAUSED]);
    let trace = run_bind_preroll_loop(&mut effects, true, true).expect("loop");
    assert_eq!(trace.len(), 2);
    assert_eq!(trace[0].action, PrerollAction::PausePreroll);
    assert_eq!(trace[1].action, PrerollAction::ResumePlaying);
    assert_eq!(effects.actions, vec![PrerollAction::PausePreroll, PrerollAction::ResumePlaying]);
    assert_eq!(effects.pause_count, 1);
    assert_eq!(effects.resume_count, 1);
}

#[test]
fn bind_loop_stops_at_noop_without_effects() {
    let mut effects = RecordingPrerollEffects::with_snapshots(vec![PLAYING]);
    let trace = run_bind_preroll_loop(&mut effects, true, true).expect("loop");
    assert_eq!(trace.len(), 1);
    assert_eq!(trace[0].action, PrerollAction::Noop);
    assert!(effects.actions.is_empty());
}

#[test]
fn bind_loop_defers_when_overlay_not_ready() {
    let mut effects = RecordingPrerollEffects::with_snapshots(vec![READY_URI]);
    let trace = run_bind_preroll_loop(&mut effects, true, false).expect("loop");
    assert_eq!(trace.len(), 1);
    assert_eq!(trace[0].action, PrerollAction::Defer);
    assert_eq!(effects.pause_count, 0);
    assert_eq!(effects.resume_count, 0);
    assert!(effects.actions.is_empty());
    assert_eq!(effects.next_snapshot, 1);
}

/// Effects whose pause fails: the loop returns that error and calls nothing more.
struct FailingPause {
    snapshots_read: u32,
    paused_on: Vec<PipelineSnapshot>,
    resumed: u32,
}

impl PrerollEffects for FailingPause {
    type Error = String;

    fn snapshot(&mut self) -> PipelineSnapshot {
        self.snapshots_read += 1;
        READY_URI
    }

    fn pause_preroll(&mut self, snapshot: PipelineSnapshot) -> Result<(), String> {
        self.paused_on.push(snapshot);
        Err("pause refused".to_string())
    }

    fn resume_playing(&mut self, _snapshot: PipelineSnapshot) -> Result<PrerollResumeOutcome, String> {
        self.resumed += 1;
        Ok(PrerollResumeOutcome::Continue)
    }
}

#[test]
fn bind_loop_stops_at_first_effect_error() {
    let mut effects = FailingPause { snapshots_read: 0, paused_on: Vec::new(), resumed: 0 };
    let r = run_bind_preroll_loop(&mut effects, true, true);
    assert_eq!(r, Err("pause refused".to_string()));
    assert_eq!(effects.snapshots_read, 1);
    assert_eq!(effects.paused_on, vec![READY_URI]);
    assert_eq!(effects.resumed, 0);
}

/// Effects whose resume keeps going: every decision resumes on its own snapshot.
struct EndlessResume {
    served: Vec<PipelineSnapshot>,
    resumed_on: Vec<PipelineSnapshot>,
}

impl PrerollEffects for EndlessResume {
    type Error = ();

    fn snapshot(&mut self) -> PipelineSnapshot {
        let s = PipelineSnapshot {
            current: PipelineState::Paused,
            pending: PipelineState::VoidPending,
            has_pending_media: self.served.len() % 2 == 0,
        };
        self.served.push(s);
        s
    }

    fn pause_preroll(&mut self, _snapshot: PipelineSnapshot) -> Result<(), ()> {
        Ok(())
    }

    fn resume_playing(&mut self, snapshot: PipelineSnapshot) -> Result<PrerollResumeOutcome, ()> {
        self.resumed_on.push(snapshot);
        Ok(PrerollResumeOutcome::Continue)
    }
}

#[test]
fn bind_loop_resumes_each_snapshot_until_budget() {
    let mut effects = EndlessResume { served: Vec::new(), resumed_on: Vec::new() };
    let trace = run_bind_preroll_loop(&mut effects, true, true).expect("loop");
    assert_eq!(trace.len(), MAX_BIND_PREROLL_STEPS);
    assert_eq!(effects.served.len(), MAX_BIND_PREROLL_STEPS);
    assert_eq!(effects.resumed_on, effects.served);
    for (step, served) in trace.iter().zip(effects.served.iter()) {
        assert_eq!(step.snapshot, *served);
        assert_eq!(step.action, PrerollAction::ResumePlaying);
    }
}

#[test]
fn bind_loop_is_bounded() {
    let mut effects =
        RecordingPrerollEffects::with_snapshots(vec![READY_URI, READY_URI, READY_URI, READY_URI, READY_URI]);
    let trace = run_bind_preroll_loop(&mut effects, false, true).expect("loop");
    assert_eq!(trace.len(), MAX_BIND_PREROLL_STEPS);
    assert_eq!(effects.pause_count as usize, MAX_BIND_PREROLL_STEPS);
}

#[test]
fn bind_loop_on_idle_recorder_is_noop() {
    let mut effects = RecordingPrerollEffects::new();
    let trace = run_bind_preroll_loop(&mut effects, true, true).expect("loop");
    assert_eq!(trace.len(), 1);
    assert_eq!(trace[0].action, PrerollAction::Noop);
}
