//! Properties that span several operations of the library: what the bus
//! leaves behind for the resume path, what the preroll gate never does, what
//! a generation bump, a reset or a cache update guarantees to the next step.

use vstd::prelude::*;

use crate::android::{
    android_apply_rule, next_generation, AndroidApplyAction, AndroidApplyEvent, AndroidApplyPhase,
    AndroidOverlaySession,
};
use crate::bus::{
    bus_state_of, empty_patch, patched, player_state_of, reduce_spec, BusMessage, BusPlatform,
    BusPlaybackState, BusSideEffect, BusSnapshot, PlayReplayContext,
};
use crate::bus_thread::{thread_reaction_ok, thread_state_of, BusThreadEvent, BusThreadReaction};
use crate::engine::{probe_after, size_changed, EngineIntent, VideoSizeProbe};
use crate::events::{EventShape, MediaTrack, PlayerEventKind, PlayerState, TrackType};
use crate::frame::copied_into;
use crate::ios::{
    ios_apply_rule, ios_attach_request_rule, ios_attach_rule, planned, reset_state, stale, TargetPlan,
    IosApplyAction,
    IosApplyEvent, IosApplyPhase, IosAttachFacts, IosAttachNext, IosAttachRequestAction,
    IosAttachRequestEvent, IosAttachRequestPhase, IosLayerAttachOutcome, IosOverlaySession,
};
use crate::orientation::{
    config_method, method_for, degrees_for, degrees_for_rotation_z, direction_for, flip_update_for, rotation_z_for,
    valid_degrees, FlipUpdate,
};
use crate::overlay::{cached_slot, handle_op_for, OverlayHandleOp};
use crate::pipeline::{PipelineSnapshot, PipelineState, SourceKind};
use crate::preroll::{bind_outcome, effect_calls, preroll_action, EffectCall, PrerollAction, PrerollResumeOutcome};
use crate::resume::{resume_action, ResumeAction};
use crate::tracks::{
    keeps, kept, track_from_stream, track_type_of, type_count, StreamInfo,
    change_matches, eligible, has_eligible, has_match, is_first_eligible,
    is_last_match, pick, pick_ok, selection, slot_ok, targets,
};

verus! {

/// A stream that ends without looping reports `Eos` then `Completed`, leaves
/// the player at its end with no play intent, and the next play that finds
/// the overlay ready restarts it: a URI seeks back to the start, an asset
/// rebuilds its shell. Until the overlay is ready the play is deferred.
pub proof fn law_completed_stream_replays_on_play(
    p: BusPlatform,
    s: BusSnapshot,
    flags: PlayReplayContext,
    kind: SourceKind,
)
    requires
        !s.looping,
    ensures
        reduce_spec(p, BusMessage::Eos, s).events
            == seq![EventShape::Eos, EventShape::State(PlayerState::Completed)],
        ({
            let after = patched(flags, reduce_spec(p, BusMessage::Eos, s).patch);
            &&& after.at_eos
            &&& !after.desired_playing
            &&& after.running == flags.running
            &&& resume_action(false, after.at_eos, kind) == ResumeAction::DeferOverlay
            &&& resume_action(true, after.at_eos, kind) == (if kind == SourceKind::Uri {
                ResumeAction::SeekToStartAndPlay
            } else {
                ResumeAction::ReplayAssetShell
            })
        }),
{
}

/// A looping stream never completes: its end reports nothing, seeks back,
/// and leaves the player off its end with the play intent unchanged.
pub proof fn law_looping_stream_never_completes(p: BusPlatform, s: BusSnapshot, flags: PlayReplayContext)
    requires
        s.looping,
    ensures
        reduce_spec(p, BusMessage::Eos, s).events.len() == 0,
        reduce_spec(p, BusMessage::Eos, s).effects == seq![BusSideEffect::EosLoopSeek],
        ({
            let after = patched(flags, reduce_spec(p, BusMessage::Eos, s).patch);
            &&& !after.at_eos
            &&& after.desired_playing == flags.desired_playing
            &&& after.running == flags.running
        }),
{
}

/// Every error is reported as an `Error` event followed by the `Error`
/// state, whatever the player was doing, and touches nothing else.
pub proof fn law_error_always_reported(p: BusPlatform, message: String, s: BusSnapshot)
    ensures
        reduce_spec(p, BusMessage::Error { message }, s).events
            == seq![EventShape::Error, EventShape::State(PlayerState::Error)],
        reduce_spec(p, BusMessage::Error { message }, s).effects.len() == 0,
        reduce_spec(p, BusMessage::Error { message }, s).patch == empty_patch(),
{
}

/// Only the end of stream changes the replay flags; every other bus message
/// leaves them exactly as they were.
pub proof fn law_only_eos_patches_replay_flags(
    p: BusPlatform,
    m: BusMessage,
    s: BusSnapshot,
    flags: PlayReplayContext,
)
    requires
        !(m is Eos),
    ensures
        reduce_spec(p, m, s).patch == empty_patch(),
        patched(flags, reduce_spec(p, m, s).patch) == flags,
{
}

/// Without a play intent, buffering and a lost clock never touch the
/// pipeline: buffering only reports its percentage, a lost clock reports
/// nothing.
pub proof fn law_no_pipeline_work_without_play_intent(p: BusPlatform, percent: i32, s: BusSnapshot)
    requires
        !s.desired_playing,
    ensures
        reduce_spec(p, BusMessage::Buffering { percent }, s).effects.len() == 0,
        reduce_spec(p, BusMessage::Buffering { percent }, s).events == seq![EventShape::Buffering(percent)],
        reduce_spec(p, BusMessage::ClockLost, s).effects.len() == 0,
        reduce_spec(p, BusMessage::ClockLost, s).events.len() == 0,
{
}

/// The preroll gate defers exactly when the overlay is not ready; without a
/// play intent it never resumes playback; it prerolls only a Ready pipeline
/// with no pending transition and with media to play.
pub proof fn law_preroll_gate(s: PipelineSnapshot, want_play: bool, overlay_ready: bool)
    ensures
        (preroll_action(s, want_play, overlay_ready) == PrerollAction::Defer) <==> !overlay_ready,
        !want_play ==> preroll_action(s, want_play, overlay_ready) != PrerollAction::ResumePlaying,
        preroll_action(s, want_play, overlay_ready) == PrerollAction::PausePreroll ==> {
            &&& s.current == PipelineState::Ready
            &&& s.pending == PipelineState::VoidPending
            &&& s.has_pending_media
        },
        preroll_action(s, want_play, overlay_ready) == PrerollAction::ResumePlaying ==> {
            &&& want_play
            &&& s.current == PipelineState::Paused
        },
{
}

/// A log entry after which the bind-path loop makes no further call: a failed
/// effect or a finished resume.
pub open spec fn ends_run<E>(e: EffectCall<E>) -> bool {
    ||| e is PauseFailed
    ||| e is ResumeFailed
    ||| (e matches EffectCall::Resume { outcome, .. } && outcome == PrerollResumeOutcome::Finished)
}

/// Any run of the bind-path loop with `left` decisions to go makes at most
/// `left` effect calls, each after its own snapshot read; it reads at least one
/// snapshot; with the overlay not ready it calls no effect at all; nothing
/// follows a failed effect or a finished resume, and an error returned is the
/// last call's. A successful run returns between one and `left` decisions,
/// each the preroll rule applied to its snapshot.
pub proof fn law_bind_loop_calls<E>(c: Seq<EffectCall<E>>, want_play: bool, overlay_ready: bool, left: nat)
    requires
        bind_outcome(c, want_play, overlay_ready, left) is Some,
    ensures
        c.len() <= 2 * left,
        effect_calls(c) <= left,
        left > 0 ==> 1 <= c.len(),
        left > 0 && !overlay_ready ==> c.len() == 1,
        forall|i: int| 0 <= i < c.len() - 1 ==> !ends_run(#[trigger] c[i]),
        bind_outcome(c, want_play, overlay_ready, left) matches Some(Err(_)) ==> c.last() is PauseFailed
            || c.last() is ResumeFailed,
        bind_outcome(c, want_play, overlay_ready, left) matches Some(Ok(t)) ==> {
            &&& t.len() <= left
            &&& (left > 0 ==> 1 <= t.len())
            &&& forall|i: int| 0 <= i < t.len() ==>
                    #[trigger] t[i].action == preroll_action(t[i].snapshot, want_play, overlay_ready)
        },
    decreases left,
{
    if left > 0 {
        let rest = c.skip(2);
        let sub = bind_outcome(rest, want_play, overlay_ready, (left - 1) as nat);
        if c.len() >= 1 {
            assert(c[0] is Snapshot);
            assert(effect_calls(c) == effect_calls(c.skip(1)));
        }
        if c.len() == 1 {
            assert(c.skip(1).len() == 0);
        }
        if c.len() >= 2 {
            assert(c.skip(1).skip(1) =~= rest);
            assert(c.skip(1)[0] == c[1]);
            assert(!(c[1] is Snapshot));
            assert(effect_calls(c.skip(1)) == 1 + effect_calls(rest));
        }
        if c.len() == 2 {
            assert(rest.len() == 0);
            assert(effect_calls(rest) == 0);
        }
        if c.len() >= 2 && sub is Some {
            law_bind_loop_calls(rest, want_play, overlay_ready, (left - 1) as nat);
            assert forall|i: int| 0 <= i < c.len() - 1 implies !ends_run(#[trigger] c[i]) by {
                if i >= 2 {
                    assert(c[i] == rest[i - 2]);
                }
            }
            if c.len() > 2 {
                assert(c.last() == rest.last());
            }
        }
    }
}

/// A CALayer attach attempt never asks again what it already knows, never
/// undoes a preroll it did not make, reports `Scheduled` exactly when its
/// completion reports an attached layer, and skips without a host view.
pub proof fn law_ios_attach_attempt(f: IosAttachFacts)
    ensures
        ios_attach_rule(f) == IosAttachNext::CheckHostReady ==> f.host_ready is None,
        ios_attach_rule(f) == IosAttachNext::FallbackPreroll ==> f.fallback_prerolled is None,
        ios_attach_rule(f) == IosAttachNext::ReadLayer ==> f.layer_at_ready is None
            || f.layer_after_preroll is None,
        ios_attach_rule(f) == IosAttachNext::CheckStale ==> f.stale_after_preroll is None
            || f.stale_after_missing_layer is None,
        ios_attach_rule(f) is SyncAttach ==> f.attached is None,
        ios_attach_rule(f) matches IosAttachNext::Finish { outcome, rollback, completion } ==> {
            &&& (rollback ==> f.fallback_prerolled == Some(true))
            &&& (outcome == IosLayerAttachOutcome::Scheduled <==> completion == Some(true))
            &&& (f.host_view == 0 ==> outcome == IosLayerAttachOutcome::Skipped)
        },
{
}

/// A scheduled Android surface apply holds the apply slot until it ends and
/// frees it on every end: after a task that could not be dispatched, stale
/// work (which does nothing else), a missing window (which unbinds), a failed
/// window set or preroll (which unbind), success, or a report out of order.
/// It never moves the generation or the cached size.
pub proof fn law_android_apply_frees_slot(
    s: AndroidOverlaySession,
    phase: AndroidApplyPhase,
    event: AndroidApplyEvent,
)
    ensures
        ({
            let (s2, step) = android_apply_rule(s, phase, event);
            &&& s2.overlay_generation == s.overlay_generation
            &&& s2.last == s.last
            &&& (phase is Done ==> s2 == s && step.phase is Done)
            &&& (phase !is Done && step.phase is Done ==> !s2.attach_in_flight)
            &&& (step.phase !is Done ==> s2.attach_in_flight == s.attach_in_flight)
            &&& (phase matches AndroidApplyPhase::Scheduled { work_generation }
                    && work_generation != s.overlay_generation
                    ==> s2 == (AndroidOverlaySession { attach_in_flight: false, ..s })
                        && step.action == AndroidApplyAction::Finish)
            &&& (phase matches AndroidApplyPhase::Scheduled { work_generation }
                    && work_generation == s.overlay_generation
                    && event == (AndroidApplyEvent::TaskRun { stored: None })
                    ==> !s2.overlay_bound)
        }),
{
}

/// The idle target-state apply does nothing to stale work or while another
/// apply is in flight; once it has entered, it stays in flight until it ends
/// and is no longer in flight after every end. With the overlay bound,
/// buffering, play wanted and the pipeline playing, it pauses the pipeline
/// and does not resume. It never touches the generation, the running flag,
/// the bind state, the attach flags or the cached size.
pub proof fn law_ios_apply_in_flight(s: IosOverlaySession, g: u64, phase: IosApplyPhase, event: IosApplyEvent)
    ensures
        ({
            let (s2, step) = ios_apply_rule(s, g, phase, event);
            &&& s2 == (IosOverlaySession {
                    state_apply_in_flight: s2.state_apply_in_flight,
                    pending_play_after_overlay: s2.pending_play_after_overlay,
                    ..s
                })
            &&& (phase is Start && (stale(s, g) || s.state_apply_in_flight) ==> s2 == s && step.phase is Done)
            &&& (phase is Start && step.phase !is Done ==> s2.state_apply_in_flight)
            &&& (phase !is Start && phase !is Done && step.phase is Done ==> !s2.state_apply_in_flight)
            &&& (phase !is Start && step.phase !is Done ==> s2.state_apply_in_flight == s.state_apply_in_flight)
            &&& (phase == IosApplyPhase::AwaitObservation && !stale(s, g) && s.buffering_active
                    && event == (IosApplyEvent::Observed { desired_playing: true, current: PipelineState::Playing })
                    ==> step.action == IosApplyAction::PauseForBuffering)
        }),
{
}

/// A CALayer attach request skips stale work with nothing changed, skips a
/// bound overlay and schedules the target-state apply, and skips while an
/// attach is in flight or without a host view. A claim it took is given back
/// on every end except an attempt that scheduled the attach. It changes no
/// other field of the session.
pub proof fn law_ios_attach_request(
    s: IosOverlaySession,
    g: u64,
    phase: IosAttachRequestPhase,
    event: IosAttachRequestEvent,
)
    ensures
        ({
            let (s2, step) = ios_attach_request_rule(s, g, phase, event);
            let skip = IosAttachRequestAction::Finish {
                outcome: Some(IosLayerAttachOutcome::Skipped),
                schedule_apply: false,
            };
            &&& s2 == (IosOverlaySession { attach_in_flight: s2.attach_in_flight, ..s })
            &&& (phase is Start && stale(s, g) ==> s2 == s && step.action == skip)
            &&& (phase is Start && event is Begin && !stale(s, g) && s.overlay_bound ==> s2 == s
                    && step.action == (IosAttachRequestAction::Finish {
                        outcome: Some(IosLayerAttachOutcome::Skipped),
                        schedule_apply: true,
                    }))
            &&& (phase is Start && !s.overlay_bound && s.attach_in_flight ==> s2 == s && step.action == skip)
            &&& (phase is Start && (event == (IosAttachRequestEvent::Begin { stored: None })
                    || event == (IosAttachRequestEvent::Begin { stored: Some(0usize) }))
                    ==> s2 == s && step.phase is Done)
            &&& ((phase is AwaitShell || phase is AwaitAttachCall) && s2.attach_in_flight ==> step.phase is Done
                    && step.action == (IosAttachRequestAction::Finish {
                        outcome: Some(IosLayerAttachOutcome::Scheduled),
                        schedule_apply: false,
                    })
                || step.phase is AwaitAttachCall)
        }),
{
}

/// A rotation with no flip uses the `videoflip` method of that rotation:
/// 90 degrees turn `clockwise`, 180 `rotate-180`, 270 `counterclockwise`; it
/// is never the `automatic` fallback, nor `none`, and each quarter turn has a
/// method of its own.
pub proof fn law_rotation_only_method(d: i32, e: i32)
    requires
        d == 90 || d == 180 || d == 270,
        e == 90 || e == 180 || e == 270,
    ensures
        config_method(false, false, d) == method_for(d),
        d == 90 ==> config_method(false, false, d) == seq!['c', 'l', 'o', 'c', 'k', 'w', 'i', 's', 'e'],
        d == 180 ==> config_method(false, false, d) == seq!['r', 'o', 't', 'a', 't', 'e', '-', '1', '8', '0'],
        d == 270 ==> config_method(false, false, d)
            == seq!['c', 'o', 'u', 'n', 't', 'e', 'r', 'c', 'l', 'o', 'c', 'k', 'w', 'i', 's', 'e'],
        config_method(false, false, d) != seq!['a', 'u', 't', 'o', 'm', 'a', 't', 'i', 'c'],
        config_method(false, false, d) != config_method(false, false, 0),
        d != e ==> config_method(false, false, d) != config_method(false, false, e),
{
    assert(seq!['a', 'u', 't', 'o', 'm', 'a', 't', 'i', 'c'][0] == 'a');
    assert(seq!['n', 'o', 'n', 'e'][0] == 'n');
    assert(seq!['c', 'l', 'o', 'c', 'k', 'w', 'i', 's', 'e'][0] == 'c');
    assert(seq!['c', 'l', 'o', 'c', 'k', 'w', 'i', 's', 'e'][1] == 'l');
    assert(seq!['c', 'o', 'u', 'n', 't', 'e', 'r', 'c', 'l', 'o', 'c', 'k', 'w', 'i', 's', 'e'][1] == 'o');
    assert(seq!['r', 'o', 't', 'a', 't', 'e', '-', '1', '8', '0'][0] == 'r');
}

/// An element state is reported under the player state of the same name:
/// Ready as `Ready`, Paused as `Paused`, Playing as `Playing`, and a stopped
/// element (Null) as `Stopped`; no two element states share a player state.
/// A pipeline state change reduces to an event list that starts with that
/// state (Paused reads `Buffering` while play is desired), and the bus
/// reducer and the bus thread report every settled pipeline state alike.
pub proof fn law_bus_state_names(
    b: BusPlaybackState,
    p: BusPlatform,
    old: BusPlaybackState,
    duration_ms: Option<i64>,
    s: BusSnapshot,
    q: PipelineState,
)
    ensures
        (player_state_of(b) == PlayerState::Ready) <==> b == BusPlaybackState::Ready,
        (player_state_of(b) == PlayerState::Paused) <==> b == BusPlaybackState::Paused,
        (player_state_of(b) == PlayerState::Playing) <==> b == BusPlaybackState::Playing,
        (player_state_of(b) == PlayerState::Stopped) <==> b == BusPlaybackState::Null,
        ({
            let ev = reduce_spec(
                p,
                BusMessage::StateChanged { is_pipeline: true, old, current: b, duration_ms },
                s,
            ).events;
            &&& ev.len() >= 1
            &&& (b == BusPlaybackState::Null ==> ev[0] == EventShape::State(PlayerState::Stopped))
            &&& (b == BusPlaybackState::Ready ==> ev[0] == EventShape::State(PlayerState::Ready))
            &&& (b == BusPlaybackState::Playing ==> ev[0] == EventShape::State(PlayerState::Playing))
            &&& (b == BusPlaybackState::Paused && !s.desired_playing
                    ==> ev[0] == EventShape::State(PlayerState::Paused))
            &&& (b == BusPlaybackState::Paused && s.desired_playing
                    ==> ev[0] == EventShape::State(PlayerState::Buffering))
        }),
        q != PipelineState::VoidPending ==> thread_state_of(q) == player_state_of(bus_state_of(q)),
{
}

/// On the bus thread a pipeline state change reports, first, a state event
/// named like the pipeline state: Null as `Stopped`, Ready as `Ready`, Paused
/// as `Paused`, Playing as `Playing`, and a state with only a pending
/// transition as `Idle`; different pipeline states never report the same
/// player state.
pub proof fn law_bus_thread_state_names(
    current: PipelineState,
    duration_ms: Option<i64>,
    desired_playing: bool,
    looping: bool,
    r: BusThreadReaction,
)
    requires
        thread_reaction_ok(BusThreadEvent::PipelineStateChanged { current, duration_ms }, desired_playing, looping, r),
    ensures
        r.events@.len() >= 1,
        r.events@[0].kind == PlayerEventKind::StateChanged,
        (r.events@[0].state == PlayerState::Stopped) <==> current == PipelineState::Null,
        (r.events@[0].state == PlayerState::Ready) <==> current == PipelineState::Ready,
        (r.events@[0].state == PlayerState::Paused) <==> current == PipelineState::Paused,
        (r.events@[0].state == PlayerState::Playing) <==> current == PipelineState::Playing,
        (r.events@[0].state == PlayerState::Idle) <==> current == PipelineState::VoidPending,
{
}

/// While buffering with play wanted, the target-state decision never runs
/// the preroll loop (which could set a paused pipeline playing): current work
/// pauses a Playing pipeline and holds in every other state. A pause for
/// buffering only ever happens to a Playing pipeline, while buffering, with
/// play wanted.
pub proof fn law_ios_buffering_holds(s: IosOverlaySession, g: u64, want_play: bool, current: PipelineState)
    ensures
        s.buffering_active && want_play ==> !(planned(s, g, want_play, current) is RunPreroll),
        s.buffering_active && want_play && !stale(s, g) && current != PipelineState::Playing
            ==> planned(s, g, want_play, current) == TargetPlan::Hold,
        s.buffering_active && want_play && !stale(s, g) && current == PipelineState::Playing
            ==> planned(s, g, want_play, current) == TargetPlan::PauseForBuffering,
        planned(s, g, want_play, current) == TargetPlan::PauseForBuffering
            ==> current == PipelineState::Playing && s.buffering_active && want_play,
{
}

/// Stopping or seeking takes the player off its end of stream, so the next
/// play just sets the pipeline playing (once the overlay is ready) instead of
/// replaying from the start.
pub proof fn law_stop_and_seek_leave_end_of_stream(intent: EngineIntent, kind: SourceKind)
    ensures
        ({
            let stopped = EngineIntent {
                replay: PlayReplayContext { desired_playing: false, at_eos: false, ..intent.replay },
                ..intent
            };
            resume_action(true, stopped.replay.at_eos, kind) == ResumeAction::SetPlaying
        }),
        ({
            let sought = EngineIntent {
                replay: PlayReplayContext { at_eos: false, ..intent.replay },
                ..intent
            };
            resume_action(true, sought.replay.at_eos, kind) == ResumeAction::SetPlaying
        }),
{
}

/// Android: bumping the overlay generation makes every piece of work
/// captured before the bump stale.
pub proof fn law_android_bump_stales_captured_work(s: AndroidOverlaySession)
    ensures
        ({
            let bumped = AndroidOverlaySession {
                overlay_generation: next_generation(s.overlay_generation),
                ..s
            };
            s.overlay_generation != bumped.overlay_generation
        }),
{
}

/// iOS: bumping the overlay generation makes every piece of work captured
/// before the bump stale, and a stopped player makes all work stale.
pub proof fn law_ios_bump_stales_captured_work(s: IosOverlaySession, g: u64)
    ensures
        ({
            let bumped = IosOverlaySession {
                overlay_generation: next_generation(s.overlay_generation),
                ..s
            };
            stale(bumped, s.overlay_generation)
        }),
        !s.running ==> stale(s, g),
{
}

/// iOS: a reset (shell rebuild or media change) unbinds the overlay, clears
/// every pending attach / apply / play flag, keeps the generation, running
/// flag and cached size, and a second reset changes nothing more.
pub proof fn law_ios_reset_unbinds(s: IosOverlaySession)
    ensures
        !reset_state(s).overlay_bound,
        !reset_state(s).attach_in_flight,
        !reset_state(s).pending_play_after_overlay,
        !reset_state(s).apply_scheduled,
        !reset_state(s).attach_scheduled,
        reset_state(s).last_applied_handle == 0,
        reset_state(s).overlay_generation == s.overlay_generation,
        reset_state(s).running == s.running,
        reset_state(s).last == s.last,
        reset_state(reset_state(s)) == reset_state(s),
{
}

/// Applying a rotation and reading it back from the rotation element (a
/// `videoflip` direction or a `gltransformation` `rotation-z`) gives the same
/// rotation, so applying it again leaves the element unchanged.
pub proof fn law_rotation_round_trip(d: i32, has_direction: bool, has_method: bool)
    requires
        valid_degrees(d),
    ensures
        degrees_for(direction_for(d)) == d,
        degrees_for_rotation_z(rotation_z_for(d)) == d,
        flip_update_for(Some(degrees_for(direction_for(d))), d, has_direction, has_method)
            == FlipUpdate::Unchanged,
{
}

/// A frame copied out of the sink reads back exactly the stored pixels at
/// the front of the buffer and leaves the buffer's length and tail alone.
pub proof fn law_frame_copy_reads_back(dst: Seq<u8>, data: Seq<u8>)
    requires
        data.len() <= dst.len(),
    ensures
        copied_into(dst, data).len() == dst.len(),
        copied_into(dst, data).subrange(0, data.len() as int) == data,
        copied_into(dst, data).subrange(data.len() as int, dst.len() as int)
            == dst.subrange(data.len() as int, dst.len() as int),
{
    assert(copied_into(dst, data).subrange(0, data.len() as int) =~= data);
    assert(copied_into(dst, data).subrange(data.len() as int, dst.len() as int)
        =~= dst.subrange(data.len() as int, dst.len() as int));
}

/// A sink looked up after registering it under a player id is that sink;
/// after unregistering the id nothing is found; other ids are unaffected.
pub proof fn law_registry_lookup<T>(m: Map<i64, T>, id: i64, other: i64, sink: T)
    requires
        other != id,
    ensures
        m.insert(id, sink).contains_key(id),
        m.insert(id, sink)[id] == sink,
        !m.insert(id, sink).remove(id).contains_key(id),
        m.insert(id, sink).contains_key(other) == m.contains_key(other),
        m.remove(id).contains_key(other) == m.contains_key(other),
{
}

/// A window handle cached by the desktop overlay is what a later rebind
/// applies to a rebuilt sink; a cleared handle (`0`) rebinds nothing.
pub proof fn law_desktop_rebind_applies_cached_handle(handle: usize)
    ensures
        handle != 0 ==> cached_slot(handle) == Some(handle)
            && handle_op_for(handle) == OverlayHandleOp::Apply(handle),
        handle == 0 ==> cached_slot(handle) is None,
{
}

/// The size probe reacts once per size: reporting the same size again right
/// after is not a change.
pub proof fn law_probe_reports_each_size_once(p: VideoSizeProbe, width: i32, height: i32)
    ensures
        !size_changed(probe_after(p, width, height), width, height),
        probe_after(probe_after(p, width, height), width, height) == probe_after(p, width, height),
{
}

/// Some value satisfies the slot rule for every prefix of the track list.
proof fn lemma_slot_exists(
    ts: Seq<MediaTrack>,
    n: int,
    ty: TrackType,
    change: Option<(TrackType, u32)>,
    inc: bool,
) -> (o: Option<int>)
    requires
        0 <= n <= ts.len(),
    ensures
        slot_ok(ts, n, ty, change, inc, o),
    decreases n,
{
    if n == 0 {
        assert(!has_match(ts, 0, change));
        assert(!has_eligible(ts, 0, ty, change, inc));
        None
    } else {
        let i = n - 1;
        let prev = lemma_slot_exists(ts, i, ty, change, inc);
        if change_matches(ts[i], change) && ts[i].track_type == ty {
            assert(has_match(ts, i + 1, change));
            assert(is_last_match(ts, i + 1, change, i));
            Some(i)
        } else if change_matches(ts[i], change) {
            assert(!targets(change, ty));
            assert(!eligible(ts[i], ty, change, inc));
            if has_eligible(ts, i + 1, ty, change, inc) {
                let w = choose|j: int| 0 <= j < i + 1 && eligible(#[trigger] ts[j], ty, change, inc);
                assert(has_eligible(ts, i, ty, change, inc));
            }
            prev
        } else {
            if targets(change, ty) && has_match(ts, i + 1, change) {
                let w = choose|j: int| 0 <= j < i + 1 && change_matches(#[trigger] ts[j], change);
                assert(has_match(ts, i, change));
                prev
            } else if eligible(ts[i], ty, change, inc) && prev is None {
                assert(has_eligible(ts, i + 1, ty, change, inc));
                assert(is_first_eligible(ts, i + 1, ty, change, inc, i));
                Some(i)
            } else {
                if has_eligible(ts, i + 1, ty, change, inc) && prev is None {
                    let w = choose|j: int| 0 <= j < i + 1 && eligible(#[trigger] ts[j], ty, change, inc);
                    assert(has_eligible(ts, i, ty, change, inc));
                }
                prev
            }
        }
    }
}

/// A track that names `ty` and `id` exists, so the change has a match.
proof fn lemma_requested_has_match(ts: Seq<MediaTrack>, j: int, ty: TrackType, id: u32)
    requires
        0 <= j < ts.len(),
        ts[j].track_type == ty,
        ts[j].id == id,
    ensures
        has_match(ts, ts.len() as int, Some((ty, id))),
        targets(Some((ty, id)), ty),
{
    assert(change_matches(ts[j], Some((ty, id))));
}

/// A requested track that exists is always part of the stream selection sent
/// for it (for subtitles too, even when other subtitles are left out): the
/// selection holds the stream id of a track with the requested type and id.
pub proof fn law_selection_keeps_requested_track(
    ts: Seq<MediaTrack>,
    ids: Seq<String>,
    ty: TrackType,
    id: u32,
    include_subtitles: bool,
    j: int,
)
    requires
        ids.len() == ts.len(),
        0 <= j < ts.len(),
        ts[j].track_type == ty,
        ts[j].id == id,
    ensures
        exists|k: int| #![trigger ts[k]]
            0 <= k < ts.len() && ts[k].track_type == ty && ts[k].id == id
                && selection(ts, ids, Some((ty, id)), include_subtitles).contains(ids[k]@),
{
    let change = Some((ty, id));
    let n = ts.len() as int;
    lemma_requested_has_match(ts, j, ty, id);
    let o = lemma_slot_exists(ts, n, ty, change, include_subtitles);
    assert(pick_ok(ts, ty, change, include_subtitles, o));
    assert(pick_ok(ts, ty, change, include_subtitles, pick(ts, ty, change, include_subtitles)));
    let c = pick(ts, ty, change, include_subtitles);
    assert(c is Some && is_last_match(ts, n, change, c->0));
    let k = c->0;
    let sel = selection(ts, ids, change, include_subtitles);
    let v = crate::tracks::id_of(ids, pick(ts, TrackType::Video, change, include_subtitles));
    let a = crate::tracks::id_of(ids, pick(ts, TrackType::Audio, change, include_subtitles));
    let t = crate::tracks::id_of(ids, pick(ts, TrackType::Subtitle, change, include_subtitles));
    assert(sel == v + a + t);
    match ty {
        TrackType::Video => {
            assert(v == seq![ids[k]@]);
            assert(sel[0] == ids[k]@);
        },
        TrackType::Audio => {
            assert(a == seq![ids[k]@]);
            assert(sel[v.len() as int] == ids[k]@);
        },
        TrackType::Subtitle => {
            assert(t == seq![ids[k]@]);
            assert(sel[(v.len() + a.len()) as int] == ids[k]@);
        },
    }
    assert(ts[k].track_type == ty && ts[k].id == id);
}

/// The kept stream indices lie below `n`, name streams that become tracks,
/// and increase.
proof fn lemma_kept_props(s: Seq<StreamInfo>, n: int)
    requires
        0 <= n <= s.len(),
    ensures
        forall|i: int| 0 <= i < kept(s, n).len() ==> 0 <= #[trigger] kept(s, n)[i] < n && keeps(s[kept(s, n)[i]]),
        forall|a: int, b: int| 0 <= a < b < kept(s, n).len() ==> #[trigger] kept(s, n)[a] < #[trigger] kept(s, n)[b],
    decreases n,
{
    if n > 0 {
        lemma_kept_props(s, n - 1);
        let prev = kept(s, n - 1);
        if keeps(s[n - 1]) {
            assert(kept(s, n) == prev.push(n - 1));
            assert forall|i: int| 0 <= i < kept(s, n).len() implies 0 <= #[trigger] kept(s, n)[i] < n
                && keeps(s[kept(s, n)[i]]) by {
                if i < prev.len() {
                    assert(kept(s, n)[i] == prev[i]);
                }
            }
            assert forall|a: int, b: int| 0 <= a < b < kept(s, n).len() implies #[trigger] kept(s, n)[a]
                < #[trigger] kept(s, n)[b] by {
                assert(kept(s, n)[a] == prev[a]);
                if b < prev.len() {
                    assert(kept(s, n)[b] == prev[b]);
                } else {
                    assert(prev[a] < n - 1);
                }
            }
        } else {
            assert(kept(s, n) == prev);
        }
    }
}

/// Per-type counts never decrease along the collection.
proof fn lemma_type_count_monotone(s: Seq<StreamInfo>, a: int, b: int, t: TrackType)
    requires
        0 <= a <= b,
    ensures
        type_count(s, a, t) <= type_count(s, b, t),
    decreases b - a,
{
    if a < b {
        lemma_type_count_monotone(s, a, b - 1, t);
    }
}

/// In a cache built from a stream collection, tracks of one type carry
/// increasing ids in cache order, so a type and an id name at most one track.
pub proof fn law_track_ids_unique_per_type(streams: Seq<StreamInfo>, tracks: Seq<MediaTrack>, ids: Seq<String>)
    requires
        tracks.len() == kept(streams, streams.len() as int).len(),
        ids.len() == tracks.len(),
        forall|j: int| 0 <= j < tracks.len() ==>
            track_from_stream(streams, #[trigger] kept(streams, streams.len() as int)[j], tracks[j], ids[j]),
    ensures
        forall|j: int, k: int| 0 <= j < k < tracks.len() && tracks[j].track_type == tracks[k].track_type
            ==> #[trigger] tracks[j].id < #[trigger] tracks[k].id,
{
    let n = streams.len() as int;
    lemma_kept_props(streams, n);
    assert forall|j: int, k: int| 0 <= j < k < tracks.len() && tracks[j].track_type == tracks[k].track_type
        implies #[trigger] tracks[j].id < #[trigger] tracks[k].id by {
        let kj = kept(streams, n)[j];
        let kk = kept(streams, n)[k];
        assert(track_from_stream(streams, kj, tracks[j], ids[j]));
        assert(track_from_stream(streams, kk, tracks[k], ids[k]));
        let t = tracks[j].track_type;
        assert(kj < kk);
        assert(keeps(streams[kj]));
        assert(track_type_of(streams[kj].stream_type) == Some(t));
        assert(type_count(streams, kj + 1, t) == type_count(streams, kj, t) + 1);
        lemma_type_count_monotone(streams, kj + 1, kk, t);
    }
}

} // verus!
