//! Play / EOS resume: the single decision for every play path (user play,
//! autoplay after load, post-overlay-bind resume).

use vstd::prelude::*;

use crate::bus::PlayReplayContext;
use crate::pipeline::{PipelineSnapshot, PipelineState, SourceKind, TargetPlatform, is_texture_platform};

verus! {

/// Planned pipeline action for play / EOS resume.
#[derive(Debug, Clone, Copy, PartialEq, Eq, Structural)]
pub enum ResumeAction {
    DeferOverlay,
    SetPlaying,
    SeekToStartAndPlay,
    ReplayAssetShell,
}

/// Overlay not ready defers; otherwise a stream not at its end plays on, a URI
/// at its end seeks back to the start, and an asset at its end is replayed by
/// rebuilding its shell.
pub open spec fn resume_action(overlay_ready: bool, at_eos: bool, kind: SourceKind) -> ResumeAction {
    if !overlay_ready {
        ResumeAction::DeferOverlay
    } else if !at_eos {
        ResumeAction::SetPlaying
    } else if kind == SourceKind::Uri {
        ResumeAction::SeekToStartAndPlay
    } else {
        ResumeAction::ReplayAssetShell
    }
}

/// Maps overlay readiness, EOS and shell kind to the resume action.
pub fn plan_resume_action(overlay_ready: bool, at_eos: bool, kind: SourceKind) -> (a: ResumeAction)
    ensures
        a == resume_action(overlay_ready, at_eos, kind),
{
    if !overlay_ready {
        return ResumeAction::DeferOverlay;
    }
    if !at_eos {
        return ResumeAction::SetPlaying;
    }
    match kind {
        SourceKind::Uri => ResumeAction::SeekToStartAndPlay,
        SourceKind::Asset => ResumeAction::ReplayAssetShell,
    }
}

/// Decides a resume and updates the replay flags: unless the resume is
/// deferred, the end-of-stream flag is cleared. Play intent is not touched.
pub fn begin_resume(flags: &mut PlayReplayContext, overlay_ready: bool, kind: SourceKind) -> (a: ResumeAction)
    ensures
        a == resume_action(overlay_ready, old(flags).at_eos, kind),
        final(flags).at_eos == (old(flags).at_eos && a == ResumeAction::DeferOverlay),
        final(flags).desired_playing == old(flags).desired_playing,
        final(flags).running == old(flags).running,
{
    let action = plan_resume_action(overlay_ready, flags.at_eos, kind);
    if let ResumeAction::DeferOverlay = action {
        return action;
    }
    flags.at_eos = false;
    action
}

/// A manual replay after EOS restarts at normal speed (looping keeps its
/// speed, which takes the bus loop-seek path instead).
pub fn resume_resets_rate(action: ResumeAction) -> (r: bool)
    ensures
        r == (action == ResumeAction::SeekToStartAndPlay || action == ResumeAction::ReplayAssetShell),
{
    match action {
        ResumeAction::SeekToStartAndPlay | ResumeAction::ReplayAssetShell => true,
        _ => false,
    }
}

/// Pure gate for post-bind resume.
pub fn should_resume_after_overlay_bind(desired_playing: bool) -> (r: bool)
    ensures
        r == desired_playing,
{
    desired_playing
}

/// Whether the surface is ready for play resume: texture platforms always are;
/// Android needs the overlay bound on the GStreamer side.
pub fn overlay_ready_for_play(platform: TargetPlatform, overlay_bound_on_gst: bool) -> (r: bool)
    ensures
        r == (is_texture_platform(platform) || overlay_bound_on_gst),
{
    match platform {
        TargetPlatform::Android => overlay_bound_on_gst,
        _ => true,
    }
}

/// What to do once an overlay is bound.
#[derive(Debug, Clone, Copy, PartialEq, Eq, Structural)]
pub enum PostBindPlan {
    /// Play is not desired: nothing to do.
    Skip,
    /// A deferred load left the pipeline in Ready: preroll to Paused, then resume.
    PrerollThenResume,
    /// Resume directly.
    Resume,
}

pub open spec fn post_bind_plan(desired_playing: bool, s: PipelineSnapshot) -> PostBindPlan {
    if !desired_playing {
        PostBindPlan::Skip
    } else if s.current == PipelineState::Ready && s.pending == PipelineState::VoidPending
        && s.has_pending_media {
        PostBindPlan::PrerollThenResume
    } else {
        PostBindPlan::Resume
    }
}

/// After an overlay bind, resume if the user already asked for play.
pub fn plan_after_overlay_bind(desired_playing: bool, snapshot: PipelineSnapshot) -> (p: PostBindPlan)
    ensures
        p == post_bind_plan(desired_playing, snapshot),
{
    if !should_resume_after_overlay_bind(desired_playing) {
        return PostBindPlan::Skip;
    }
    if snapshot.current == PipelineState::Ready && snapshot.pending == PipelineState::VoidPending
        && snapshot.has_pending_media {
        PostBindPlan::PrerollThenResume
    } else {
        PostBindPlan::Resume
    }
}

} // verus!
