//! Overlay-gated preroll: the single rule for Ready -> Paused -> Playing
//! transitions, the bounded bind-path loop that applies it, and the per-platform
//! load-path gates.

use vstd::prelude::*;

use crate::pipeline::{PipelineSnapshot, PipelineState};

verus! {

/// Next overlay-gated pipeline transition (execution stays with the caller).
#[derive(Debug, Clone, Copy, PartialEq, Eq, Structural)]
pub enum PrerollAction {
    /// Conditions not met; no transition.
    Noop,
    /// Overlay not ready: defer preroll until bind (load paths).
    Defer,
    /// Ready with pending media: Paused preroll.
    PausePreroll,
    /// The user wants play while Paused (including a pending transition).
    ResumePlaying,
}

/// The preroll rule, stated case by case.
pub open spec fn preroll_action(s: PipelineSnapshot, want_play: bool, overlay_ready: bool) -> PrerollAction {
    if !overlay_ready {
        PrerollAction::Defer
    } else if !want_play {
        if s.pending == PipelineState::VoidPending && s.current == PipelineState::Ready
            && s.has_pending_media {
            PrerollAction::PausePreroll
        } else {
            PrerollAction::Noop
        }
    } else if s.current == PipelineState::Paused {
        PrerollAction::ResumePlaying
    } else if s.pending == PipelineState::VoidPending && s.current == PipelineState::Ready
        && s.has_pending_media {
        PrerollAction::PausePreroll
    } else {
        PrerollAction::Noop
    }
}

/// Pure decision: given snapshot and intent, which transition should run next?
///
/// `overlay_ready` is context-specific: the Android bind path passes `true`,
/// the iOS load path passes `false`, and the desktop load path inverts the
/// handle-cache state at the call site.
pub fn decide_preroll_action(
    snapshot: PipelineSnapshot,
    want_play: bool,
    overlay_ready: bool,
) -> (action: PrerollAction)
    ensures
        action == preroll_action(snapshot, want_play, overlay_ready),
{
    if !overlay_ready {
        return PrerollAction::Defer;
    }
    let current = snapshot.current;
    let pending = snapshot.pending;
    let has_pending_media = snapshot.has_pending_media;

    if !want_play {
        if pending == PipelineState::VoidPending && current == PipelineState::Ready
            && has_pending_media {
            return PrerollAction::PausePreroll;
        }
        return PrerollAction::Noop;
    }
    if pending != PipelineState::VoidPending {
        if current == PipelineState::Paused {
            return PrerollAction::ResumePlaying;
        }
        return PrerollAction::Noop;
    }
    if current == PipelineState::Ready && has_pending_media {
        return PrerollAction::PausePreroll;
    }
    if current != PipelineState::Ready && current != PipelineState::Paused {
        return PrerollAction::Noop;
    }
    if current == PipelineState::Paused {
        return PrerollAction::ResumePlaying;
    }
    PrerollAction::Noop
}


/// Upper bound on the decisions the bind-path loop makes.
pub const MAX_BIND_PREROLL_STEPS: usize = 4;

/// Outcome of a [`PrerollEffects::resume_playing`] call.
#[derive(Debug, Clone, Copy, PartialEq, Eq, Structural)]
pub enum PrerollResumeOutcome {
    /// The loop may continue (e.g. after pause preroll).
    Continue,
    /// The resume path finished; stop iterating.
    Finished,
}

/// One decision of the bind-path loop: the snapshot it was taken on and the
/// action that the preroll rule chose for it.
#[derive(Debug, Clone, Copy, PartialEq, Eq, Structural)]
pub struct PrerollStep {
    pub snapshot: PipelineSnapshot,
    pub action: PrerollAction,
}

/// One call made on a [`PrerollEffects`], as its log records it: the method,
/// the snapshot it read or was handed, and how it returned.
pub enum EffectCall<E> {
    /// `snapshot` returned this snapshot.
    Snapshot { snapshot: PipelineSnapshot },
    /// `pause_preroll` on this snapshot returned `Ok`.
    Pause { snapshot: PipelineSnapshot },
    /// `pause_preroll` on this snapshot returned this error.
    PauseFailed { snapshot: PipelineSnapshot, error: E },
    /// `resume_playing` on this snapshot returned `Ok(outcome)`.
    Resume { snapshot: PipelineSnapshot, outcome: PrerollResumeOutcome },
    /// `resume_playing` on this snapshot returned this error.
    ResumeFailed { snapshot: PipelineSnapshot, error: E },
}

/// The log entry of a `pause_preroll(snapshot)` call that returned `r`.
pub open spec fn pause_call<E>(snapshot: PipelineSnapshot, r: Result<(), E>) -> EffectCall<E> {
    match r {
        Ok(_) => EffectCall::Pause { snapshot },
        Err(error) => EffectCall::PauseFailed { snapshot, error },
    }
}

/// The log entry of a `resume_playing(snapshot)` call that returned `r`.
pub open spec fn resume_call<E>(snapshot: PipelineSnapshot, r: Result<PrerollResumeOutcome, E>) -> EffectCall<E> {
    match r {
        Ok(outcome) => EffectCall::Resume { snapshot, outcome },
        Err(error) => EffectCall::ResumeFailed { snapshot, error },
    }
}

/// Platform side effects of the bind-path preroll loop (mockable in tests).
///
/// `snapshot` reads the pipeline in a short scope of its own; the loop never
/// holds anything across an effect call, so `resume_playing` may take the
/// pipeline lock itself. Every call appends one entry to the log `calls`.
pub trait PrerollEffects {
    type Error;

    /// The calls made on this value so far, oldest first. A verified
    /// implementation defines it so that its methods meet the contracts below
    /// (the empty default meets none of them); in compiled code it is absent.
    closed spec fn calls(&self) -> Seq<EffectCall<Self::Error>> {
        Seq::empty()
    }

    fn snapshot(&mut self) -> (s: PipelineSnapshot)
        ensures
            final(self).calls() == old(self).calls().push(EffectCall::Snapshot { snapshot: s }),
    ;

    fn pause_preroll(&mut self, snapshot: PipelineSnapshot) -> (r: Result<(), Self::Error>)
        ensures
            final(self).calls() == old(self).calls().push(pause_call(snapshot, r)),
    ;

    fn resume_playing(&mut self, snapshot: PipelineSnapshot) -> (r: Result<PrerollResumeOutcome, Self::Error>)
        ensures
            final(self).calls() == old(self).calls().push(resume_call(snapshot, r)),
    ;
}

/// `step` put in front of the trace of a run that returned `o`.
pub open spec fn prepend_step<E>(step: PrerollStep, o: Option<Result<Seq<PrerollStep>, E>>) -> Option<Result<Seq<PrerollStep>, E>> {
    match o {
        Some(Ok(t)) => Some(Ok(seq![step] + t)),
        _ => o,
    }
}

/// What the bind-path loop returns when the calls it made on its effects are
/// `c` and it may still make `left` decisions; `None` when no run of the loop
/// makes exactly these calls.
///
/// Each decision reads one snapshot and applies the preroll rule to it.
/// `Noop` and `Defer` end the run with no effect. `PausePreroll` pauses on
/// that very snapshot, `ResumePlaying` resumes on it; an error from either is
/// the run's error and ends it, as does a finished resume. After `left`
/// decisions the run ends successfully.
pub open spec fn bind_outcome<E>(
    c: Seq<EffectCall<E>>,
    want_play: bool,
    overlay_ready: bool,
    left: nat,
) -> Option<Result<Seq<PrerollStep>, E>>
    decreases left,
{
    if left == 0 {
        if c.len() == 0 { Some(Ok(Seq::empty())) } else { None }
    } else if c.len() == 0 {
        None
    } else {
        match c[0] {
            EffectCall::Snapshot { snapshot } => {
                let action = preroll_action(snapshot, want_play, overlay_ready);
                let step = PrerollStep { snapshot, action };
                match action {
                    PrerollAction::Noop | PrerollAction::Defer => {
                        if c.len() == 1 { Some(Ok(seq![step])) } else { None }
                    },
                    PrerollAction::PausePreroll => {
                        if c.len() < 2 {
                            None
                        } else {
                            match c[1] {
                                EffectCall::Pause { snapshot: s } => {
                                    if s == snapshot {
                                        prepend_step(step, bind_outcome(c.skip(2), want_play, overlay_ready, (left - 1) as nat))
                                    } else {
                                        None
                                    }
                                },
                                EffectCall::PauseFailed { snapshot: s, error } => {
                                    if s == snapshot && c.len() == 2 { Some(Err(error)) } else { None }
                                },
                                _ => None,
                            }
                        }
                    },
                    PrerollAction::ResumePlaying => {
                        if c.len() < 2 {
                            None
                        } else {
                            match c[1] {
                                EffectCall::Resume { snapshot: s, outcome } => {
                                    if s != snapshot {
                                        None
                                    } else if outcome == PrerollResumeOutcome::Finished {
                                        if c.len() == 2 { Some(Ok(seq![step])) } else { None }
                                    } else {
                                        prepend_step(step, bind_outcome(c.skip(2), want_play, overlay_ready, (left - 1) as nat))
                                    }
                                },
                                EffectCall::ResumeFailed { snapshot: s, error } => {
                                    if s == snapshot && c.len() == 2 { Some(Err(error)) } else { None }
                                },
                                _ => None,
                            }
                        }
                    },
                }
            },
            _ => None,
        }
    }
}

/// How many entries of the log `c` are effect calls (pause or resume), as
/// opposed to snapshot reads.
pub open spec fn effect_calls<E>(c: Seq<EffectCall<E>>) -> nat
    decreases c.len(),
{
    if c.len() == 0 {
        0
    } else {
        (if c[0] is Snapshot { 0nat } else { 1nat }) + effect_calls(c.skip(1))
    }
}

/// The value of a returned trace, or the error.
pub open spec fn trace_view<E>(r: Result<Vec<PrerollStep>, E>) -> Result<Seq<PrerollStep>, E> {
    match r {
        Ok(t) => Ok(t@),
        Err(e) => Err(e),
    }
}

/// The calls appended to `before` to reach `after`, when `after` extends it.
pub open spec fn appended_calls<E>(before: Seq<EffectCall<E>>, after: Seq<EffectCall<E>>) -> Seq<EffectCall<E>> {
    after.skip(before.len() as int)
}

/// `after` keeps `before` as its prefix.
pub open spec fn extends_log<E>(before: Seq<EffectCall<E>>, after: Seq<EffectCall<E>>) -> bool {
    &&& before.len() <= after.len()
    &&& after.subrange(0, before.len() as int) == before
}

/// Runs the remaining `left` decisions of the bind-path loop.
fn run_bind_steps<E: PrerollEffects>(
    effects: &mut E,
    want_play: bool,
    overlay_ready: bool,
    left: usize,
) -> (r: Result<Vec<PrerollStep>, E::Error>)
    ensures
        extends_log(old(effects).calls(), final(effects).calls()),
        bind_outcome(appended_calls(old(effects).calls(), final(effects).calls()), want_play, overlay_ready, left as nat)
            == Some(trace_view(r)),
    decreases left,
{
    let ghost c0 = effects.calls();
    if left == 0 {
        proof {
            assert(appended_calls(c0, effects.calls()) =~= Seq::<EffectCall<E::Error>>::empty());
            assert(effects.calls().subrange(0, c0.len() as int) =~= c0);
        }
        return Ok(Vec::new());
    }
    let snapshot = effects.snapshot();
    let action = decide_preroll_action(snapshot, want_play, overlay_ready);
    let step = PrerollStep { snapshot, action };
    let ghost c1 = effects.calls();
    assert(c1 == c0.push(EffectCall::Snapshot { snapshot }));
    if action == PrerollAction::Noop || action == PrerollAction::Defer {
        let trace = vec![step];
        proof {
            assert(appended_calls(c0, c1) =~= seq![EffectCall::Snapshot { snapshot }]);
            assert(c1.subrange(0, c0.len() as int) =~= c0);
            assert(trace@ =~= seq![step]);
        }
        return Ok(trace);
    }
    if action == PrerollAction::PausePreroll {
        match effects.pause_preroll(snapshot) {
            Err(e) => {
                proof {
                    assert(appended_calls(c0, effects.calls()) =~= seq![
                        EffectCall::Snapshot { snapshot },
                        EffectCall::PauseFailed { snapshot, error: e },
                    ]);
                    assert(effects.calls().subrange(0, c0.len() as int) =~= c0);
                }
                return Err(e);
            },
            Ok(()) => {},
        }
    } else {
        match effects.resume_playing(snapshot) {
            Err(e) => {
                proof {
                    assert(appended_calls(c0, effects.calls()) =~= seq![
                        EffectCall::Snapshot { snapshot },
                        EffectCall::ResumeFailed { snapshot, error: e },
                    ]);
                    assert(effects.calls().subrange(0, c0.len() as int) =~= c0);
                }
                return Err(e);
            },
            Ok(PrerollResumeOutcome::Finished) => {
                let trace = vec![step];
                proof {
                    assert(appended_calls(c0, effects.calls()) =~= seq![
                        EffectCall::Snapshot { snapshot },
                        EffectCall::Resume { snapshot, outcome: PrerollResumeOutcome::Finished },
                    ]);
                    assert(effects.calls().subrange(0, c0.len() as int) =~= c0);
                    assert(trace@ =~= seq![step]);
                }
                return Ok(trace);
            },
            Ok(PrerollResumeOutcome::Continue) => {},
        }
    }
    // The effect succeeded and the loop goes on with one decision fewer.
    let ghost c2 = effects.calls();
    let rest = run_bind_steps(effects, want_play, overlay_ready, left - 1);
    proof {
        let c3 = effects.calls();
        let log = appended_calls(c0, c3);
        assert(c3.subrange(0, c2.len() as int) == c2);
        assert(log[0] == c3[c0.len() as int]);
        assert(log[1] == c3[c0.len() + 1int]);
        assert(c3[c0.len() as int] == c2[c0.len() as int]);
        assert(c3[c0.len() + 1int] == c2[c0.len() + 1int]);
        assert(log.skip(2) =~= appended_calls(c2, c3));
        assert(c3.subrange(0, c0.len() as int) =~= c2.subrange(0, c0.len() as int));
        assert(c2.subrange(0, c0.len() as int) =~= c0);
    }
    match rest {
        Ok(mut trace) => {
            let ghost tail = trace@;
            trace.insert(0, step);
            assert(trace@ =~= seq![step] + tail);
            Ok(trace)
        },
        Err(e) => Err(e),
    }
}

/// Runs the overlay-gated Ready -> Paused -> Playing loop for bind paths
/// (`want_play` may be true) and returns the decisions it made, in order.
///
/// The calls it makes on `effects` are exactly those of [`bind_outcome`] with
/// [`MAX_BIND_PREROLL_STEPS`] decisions: each decision reads a fresh snapshot,
/// each effect gets the snapshot read just before it, and nothing is called
/// after an error (which is returned as it came) or after a finished resume.
/// It makes at most [`MAX_BIND_PREROLL_STEPS`] effect calls. With the overlay
/// not ready the loop reads one snapshot, defers, and calls no effect.
pub fn run_bind_preroll_loop<E: PrerollEffects>(
    effects: &mut E,
    want_play: bool,
    overlay_ready: bool,
) -> (r: Result<Vec<PrerollStep>, E::Error>)
    ensures
        extends_log(old(effects).calls(), final(effects).calls()),
        bind_outcome(appended_calls(old(effects).calls(), final(effects).calls()), want_play, overlay_ready,
            MAX_BIND_PREROLL_STEPS as nat) == Some(trace_view(r)),
        effect_calls(appended_calls(old(effects).calls(), final(effects).calls())) <= MAX_BIND_PREROLL_STEPS,
        !overlay_ready ==> (r matches Ok(trace) && trace@.len() == 1
            && trace@[0].action == PrerollAction::Defer
            && final(effects).calls().len() == old(effects).calls().len() + 1),
{
    let r = run_bind_steps(effects, want_play, overlay_ready, MAX_BIND_PREROLL_STEPS);
    proof {
        crate::laws::law_bind_loop_calls(
            appended_calls(old(effects).calls(), effects.calls()),
            want_play,
            overlay_ready,
            MAX_BIND_PREROLL_STEPS as nat,
        );
        if !overlay_ready {
            let log = appended_calls(old(effects).calls(), effects.calls());
            assert(log.len() == 1);
        }
    }
    r
}

/// Test double for [`PrerollEffects`]: serves scripted snapshots and records
/// which effects ran.
pub struct RecordingPrerollEffects {
    pub actions: Vec<PrerollAction>,
    pub pause_count: u32,
    pub resume_count: u32,
    pub snapshots: Vec<PipelineSnapshot>,
    pub next_snapshot: usize,
    /// Every call made on this recorder, oldest first.
    pub log: Ghost<Seq<EffectCall<()>>>,
}

/// Served once the scripted snapshots run out: an empty pipeline at `Null`.
pub open spec fn idle_snapshot() -> PipelineSnapshot {
    PipelineSnapshot {
        current: PipelineState::Null,
        pending: PipelineState::VoidPending,
        has_pending_media: false,
    }
}

impl RecordingPrerollEffects {
    /// A recorder with no scripted snapshots.
    pub fn new() -> (r: Self)
        ensures
            r.actions@ == Seq::<PrerollAction>::empty(),
            r.pause_count == 0,
            r.resume_count == 0,
            r.snapshots@ == Seq::<PipelineSnapshot>::empty(),
            r.next_snapshot == 0,
            r.log@ == Seq::<EffectCall<()>>::empty(),
    {
        RecordingPrerollEffects {
            actions: Vec::new(),
            pause_count: 0,
            resume_count: 0,
            snapshots: Vec::new(),
            next_snapshot: 0,
            log: Ghost(Seq::empty()),
        }
    }

    /// A recorder that serves `snapshots` in order.
    pub fn with_snapshots(snapshots: Vec<PipelineSnapshot>) -> (r: Self)
        ensures
            r.actions@ == Seq::<PrerollAction>::empty(),
            r.pause_count == 0,
            r.resume_count == 0,
            r.snapshots@ == snapshots@,
            r.next_snapshot == 0,
            r.log@ == Seq::<EffectCall<()>>::empty(),
    {
        RecordingPrerollEffects {
            actions: Vec::new(),
            pause_count: 0,
            resume_count: 0,
            snapshots,
            next_snapshot: 0,
            log: Ghost(Seq::empty()),
        }
    }
}

/// `n + 1`, held at `u32::MAX`.
pub open spec fn bump_count(n: u32) -> u32 {
    if n < u32::MAX { (n + 1) as u32 } else { n }
}

impl PrerollEffects for RecordingPrerollEffects {
    type Error = ();

    open spec fn calls(&self) -> Seq<EffectCall<()>> {
        self.log@
    }

    fn snapshot(&mut self) -> (s: PipelineSnapshot)
        ensures
            s == (if old(self).next_snapshot < old(self).snapshots@.len() {
                old(self).snapshots@[old(self).next_snapshot as int]
            } else {
                idle_snapshot()
            }),
            final(self).next_snapshot == (if old(self).next_snapshot < old(self).snapshots@.len() {
                (old(self).next_snapshot + 1) as usize
            } else {
                old(self).next_snapshot
            }),
            final(self).actions@ == old(self).actions@,
            final(self).snapshots@ == old(self).snapshots@,
            final(self).pause_count == old(self).pause_count,
            final(self).resume_count == old(self).resume_count,
    {
        let s = if self.next_snapshot < self.snapshots.len() {
            let s = self.snapshots[self.next_snapshot];
            self.next_snapshot = self.next_snapshot + 1;
            s
        } else {
            PipelineSnapshot {
                current: PipelineState::Null,
                pending: PipelineState::VoidPending,
                has_pending_media: false,
            }
        };
        self.log = Ghost(self.log@.push(EffectCall::Snapshot { snapshot: s }));
        s
    }

    fn pause_preroll(&mut self, snapshot: PipelineSnapshot) -> (r: Result<(), ()>)
        ensures
            r is Ok,
            final(self).actions@ == old(self).actions@.push(PrerollAction::PausePreroll),
            final(self).pause_count == bump_count(old(self).pause_count),
            final(self).resume_count == old(self).resume_count,
            final(self).snapshots@ == old(self).snapshots@,
            final(self).next_snapshot == old(self).next_snapshot,
    {
        self.actions.push(PrerollAction::PausePreroll);
        self.pause_count = self.pause_count.saturating_add(1);
        self.log = Ghost(self.log@.push(EffectCall::Pause { snapshot }));
        Ok(())
    }

    fn resume_playing(&mut self, snapshot: PipelineSnapshot) -> (r: Result<PrerollResumeOutcome, ()>)
        ensures
            r == Ok::<PrerollResumeOutcome, ()>(PrerollResumeOutcome::Finished),
            final(self).actions@ == old(self).actions@.push(PrerollAction::ResumePlaying),
            final(self).resume_count == bump_count(old(self).resume_count),
            final(self).pause_count == old(self).pause_count,
            final(self).snapshots@ == old(self).snapshots@,
            final(self).next_snapshot == old(self).next_snapshot,
    {
        self.actions.push(PrerollAction::ResumePlaying);
        self.resume_count = self.resume_count.saturating_add(1);
        self.log = Ghost(self.log@.push(EffectCall::Resume { snapshot, outcome: PrerollResumeOutcome::Finished }));
        Ok(PrerollResumeOutcome::Finished)
    }
}

} // verus!
