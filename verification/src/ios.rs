//! iOS overlay session: asynchronous CALayer attach, the verified
//! `overlay_bound` flag, coalesced idle scheduling and the idle target-state
//! gate. Every method is one step of the session; the application runs the
//! GStreamer and main-thread work between the steps.

use vstd::prelude::*;

use crate::android::{bump_generation, next_generation};
use crate::overlay::{updated_dims, CachedDimensions, OverlaySession};
use crate::pipeline::PipelineState;

verus! {

/// The target-state decision, once the overlay is bound: stale work stops;
/// buffering while play is wanted pauses a playing pipeline (and holds
/// otherwise); without play wanted nothing changes; else the bind-path preroll
/// runs.
pub open spec fn planned(s: IosOverlaySession, g: u64, want_play: bool, current: PipelineState) -> TargetPlan {
    if stale(s, g) {
        TargetPlan::Stop
    } else if s.buffering_active && want_play {
        if current == PipelineState::Playing { TargetPlan::PauseForBuffering } else { TargetPlan::Hold }
    } else if !want_play {
        TargetPlan::Hold
    } else {
        TargetPlan::RunPreroll { overlay_ready: s.overlay_bound }
    }
}

/// The iOS overlay session state. It has one owner and no copies, so its
/// flags are the same for every holder of the surface.
#[derive(Debug, PartialEq, Eq, Structural)]
pub struct IosOverlaySession {
    pub overlay_bound: bool,
    pub running: bool,
    pub overlay_generation: u64,
    pub attach_in_flight: bool,
    pub pending_play_after_overlay: bool,
    pub buffering_active: bool,
    pub apply_scheduled: bool,
    pub attach_scheduled: bool,
    pub state_apply_in_flight: bool,
    pub last_applied_handle: usize,
    pub last: CachedDimensions,
}

/// What [`IosOverlaySession::begin_request_attach`] decided.
#[derive(Debug, Clone, Copy, PartialEq, Eq, Structural)]
pub enum AttachRequest {
    /// Stale work, an attach already in flight, or no host view: nothing to do.
    Skipped,
    /// Already bound: schedule the idle target-state apply instead.
    ApplyBound,
    /// Start attaching the sink layer to this host view.
    Attach { host_view: usize },
}

/// Outcome of starting a CALayer attach.
#[derive(Debug, Clone, Copy, PartialEq, Eq, Structural)]
pub enum IosLayerAttachOutcome {
    Scheduled,
    LayerNotReady,
    Skipped,
}

/// What the idle target-state apply does with the pipeline.
#[derive(Debug, Clone, Copy, PartialEq, Eq, Structural)]
pub enum TargetPlan {
    /// Stale work: stop.
    Stop,
    /// Buffering while playing: pause the pipeline.
    PauseForBuffering,
    /// Nothing to change.
    Hold,
    /// Run the bind-path preroll loop with this overlay readiness.
    RunPreroll { overlay_ready: bool },
}

/// What a layout report asks for.
#[derive(Debug, Clone, Copy, PartialEq, Eq, Structural)]
pub enum LayoutApply {
    /// No size or no host view: nothing.
    Nothing,
    /// Bound to this host: re-attach the layer if the size changed, then drain
    /// pending play, on the Gst thread under this generation.
    Refresh { dimensions_changed: bool, work_generation: u64 },
    /// Not bound to this host: request an attach on the Gst thread.
    Attach { work_generation: u64 },
}

/// Work captured at `g` is stale once the player stopped or the generation moved.
pub open spec fn stale(s: IosOverlaySession, g: u64) -> bool {
    !s.running || g != s.overlay_generation
}

/// Every attach/schedule flag cleared, unbound, no handle applied.
pub open spec fn reset_state(s: IosOverlaySession) -> IosOverlaySession {
    IosOverlaySession {
        overlay_bound: false,
        attach_in_flight: false,
        state_apply_in_flight: false,
        pending_play_after_overlay: false,
        buffering_active: false,
        apply_scheduled: false,
        attach_scheduled: false,
        last_applied_handle: 0,
        ..s
    }
}

/// A host change unbinds, unless an attach is in flight.
pub open spec fn host_reset(s: IosOverlaySession) -> IosOverlaySession {
    if s.attach_in_flight {
        s
    } else {
        IosOverlaySession { overlay_bound: false, last_applied_handle: 0, ..s }
    }
}

impl IosOverlaySession {
    /// A session over the given bound flag, last attached host, running flag
    /// and generation.
    pub fn new(overlay_bound: bool, last_applied_handle: usize, running: bool, overlay_generation: u64) -> (s: Self)
        ensures
            s.overlay_bound == overlay_bound,
            s.last_applied_handle == last_applied_handle,
            s.running == running,
            s.overlay_generation == overlay_generation,
            !s.attach_in_flight,
            !s.pending_play_after_overlay,
            !s.buffering_active,
            !s.apply_scheduled,
            !s.attach_scheduled,
            !s.state_apply_in_flight,
            s.dims() == (0i32, 0i32),
    {
        IosOverlaySession {
            overlay_bound,
            running,
            overlay_generation,
            attach_in_flight: false,
            pending_play_after_overlay: false,
            buffering_active: false,
            apply_scheduled: false,
            attach_scheduled: false,
            state_apply_in_flight: false,
            last_applied_handle,
            last: CachedDimensions::new(),
        }
    }

    /// A fresh unbound session at generation 0.
    pub fn new_with_running(running: bool) -> (s: Self)
        ensures
            !s.overlay_bound,
            !s.attach_in_flight,
            !s.pending_play_after_overlay,
            !s.buffering_active,
            !s.apply_scheduled,
            !s.attach_scheduled,
            !s.state_apply_in_flight,
            s.dims() == (0i32, 0i32),
            s.last_applied_handle == 0,
            s.running == running,
            s.overlay_generation == 0,
    {
        Self::new(false, 0, running, 0)
    }

    /// Wires the replay running flag (pipeline lifetime).
    pub fn wire_running(&mut self, running: bool)
        ensures
            *final(self) == (IosOverlaySession { running, ..*old(self) }),
    {
        self.running = running;
    }

    pub fn overlay_generation(&self) -> (g: u64)
        ensures
            g == self.overlay_generation,
    {
        self.overlay_generation
    }

    /// Bumps the generation, invalidating stale attach/apply work.
    pub fn bump_overlay_generation(&mut self)
        ensures
            *final(self) == (IosOverlaySession {
                overlay_generation: next_generation(old(self).overlay_generation),
                ..*old(self)
            }),
    {
        self.overlay_generation = bump_generation(self.overlay_generation);
    }

    pub fn lifecycle_stale(&self, work_generation: u64) -> (r: bool)
        ensures
            r == stale(*self, work_generation),
    {
        !self.running || work_generation != self.overlay_generation
    }

    pub fn is_bound(&self) -> (r: bool)
        ensures
            r == self.overlay_bound,
    {
        self.overlay_bound
    }

    pub fn set_pending_play_after_overlay(&mut self, pending: bool)
        ensures
            *final(self) == (IosOverlaySession { pending_play_after_overlay: pending, ..*old(self) }),
    {
        self.pending_play_after_overlay = pending;
    }

    /// Network buffering active (pauses playback while buffering).
    pub fn set_buffering_active(&mut self, active: bool)
        ensures
            *final(self) == (IosOverlaySession { buffering_active: active, ..*old(self) }),
    {
        self.buffering_active = active;
    }

    /// Resets all attach/schedule state on a shell rebuild.
    pub fn reset_for_shell_rebuild(&mut self)
        ensures
            *final(self) == reset_state(*old(self)),
    {
        self.overlay_bound = false;
        self.attach_in_flight = false;
        self.state_apply_in_flight = false;
        self.pending_play_after_overlay = false;
        self.buffering_active = false;
        self.apply_scheduled = false;
        self.attach_scheduled = false;
        self.last_applied_handle = 0;
    }

    /// Clears overlay state on every media change (URI reload, asset swap).
    pub fn reset_for_media_change(&mut self)
        ensures
            *final(self) == reset_state(*old(self)),
    {
        self.reset_for_shell_rebuild();
    }

    /// Partial reset on a host view change (skipped while an attach is in flight).
    pub fn reset_for_host_change(&mut self)
        ensures
            *final(self) == host_reset(*old(self)),
    {
        if self.attach_in_flight {
            return;
        }
        self.overlay_bound = false;
        self.last_applied_handle = 0;
    }

    /// A host notification: `0` drops the host (with a host reset); a new
    /// host caches its size and, when it replaces a different one, resets.
    pub fn cache_ios_overlay(&mut self, stored: &mut Option<usize>, handle: i64, width: i32, height: i32)
        ensures
            *final(stored) == (if handle == 0 { None } else { Some(handle as usize) }),
            handle == 0 ==> *final(self) == host_reset(*old(self)),
            handle != 0 ==> {
                let changed = match *old(stored) {
                    Some(h) => h != 0 && h != handle as usize,
                    None => false,
                };
                let sized = IosOverlaySession {
                    last: CachedDimensions {
                        width: updated_dims(old(self).dims(), width, height).0,
                        height: updated_dims(old(self).dims(), width, height).1,
                    },
                    ..*old(self)
                };
                *final(self) == (if changed { host_reset(sized) } else { sized })
            },
    {
        if handle == 0 {
            self.reset_for_host_change();
            *stored = None;
            return;
        }
        let new_handle = handle as usize;
        let host_changed = match *stored {
            Some(h) => h != 0 && h != new_handle,
            None => false,
        };
        self.last.update(width, height);
        if host_changed {
            self.reset_for_host_change();
        }
        *stored = Some(new_handle);
    }

    /// Claims the single idle attach retry slot for work at `g`; false when the
    /// work is stale or a retry is already scheduled.
    pub fn begin_schedule_attach(&mut self, g: u64) -> (r: bool)
        ensures
            r == (!stale(*old(self), g) && !old(self).attach_scheduled),
            *final(self) == (IosOverlaySession {
                attach_scheduled: old(self).attach_scheduled || !stale(*old(self), g),
                ..*old(self)
            }),
    {
        if self.lifecycle_stale(g) {
            return false;
        }
        if self.attach_scheduled {
            return false;
        }
        self.attach_scheduled = true;
        true
    }

    /// The scheduled attach retry runs (or could not be dispatched): frees the
    /// slot and says whether the work is still current.
    pub fn run_scheduled_attach(&mut self, g: u64) -> (current: bool)
        ensures
            current == !stale(*old(self), g),
            *final(self) == (IosOverlaySession { attach_scheduled: false, ..*old(self) }),
    {
        self.attach_scheduled = false;
        !self.lifecycle_stale(g)
    }

    /// Claims the single idle target-state apply slot for work at `g`.
    pub fn begin_schedule_apply(&mut self, g: u64) -> (r: bool)
        ensures
            r == (!stale(*old(self), g) && !old(self).apply_scheduled),
            *final(self) == (IosOverlaySession {
                apply_scheduled: old(self).apply_scheduled || !stale(*old(self), g),
                ..*old(self)
            }),
    {
        if self.lifecycle_stale(g) {
            return false;
        }
        if self.apply_scheduled {
            return false;
        }
        self.apply_scheduled = true;
        true
    }

    /// The scheduled apply runs (or could not be dispatched): frees the slot
    /// and says whether the work is still current.
    pub fn run_scheduled_apply(&mut self, g: u64) -> (current: bool)
        ensures
            current == !stale(*old(self), g),
            *final(self) == (IosOverlaySession { apply_scheduled: false, ..*old(self) }),
    {
        self.apply_scheduled = false;
        !self.lifecycle_stale(g)
    }

    /// Starts at most one CALayer attach, coalescing concurrent callers.
    pub fn begin_request_attach(&mut self, g: u64, stored: Option<usize>) -> (r: AttachRequest)
        ensures
            r == (if stale(*old(self), g) {
                AttachRequest::Skipped
            } else if old(self).overlay_bound {
                AttachRequest::ApplyBound
            } else if old(self).attach_in_flight {
                AttachRequest::Skipped
            } else if stored is Some && stored->0 != 0 {
                AttachRequest::Attach { host_view: stored->0 }
            } else {
                AttachRequest::Skipped
            }),
            *final(self) == (IosOverlaySession {
                attach_in_flight: old(self).attach_in_flight || r is Attach,
                ..*old(self)
            }),
    {
        if self.lifecycle_stale(g) {
            return AttachRequest::Skipped;
        }
        if self.overlay_bound {
            return AttachRequest::ApplyBound;
        }
        if self.attach_in_flight {
            return AttachRequest::Skipped;
        }
        match stored {
            Some(h) => {
                if h != 0 {
                    self.attach_in_flight = true;
                    AttachRequest::Attach { host_view: h }
                } else {
                    AttachRequest::Skipped
                }
            },
            None => AttachRequest::Skipped,
        }
    }

    /// Just before the attach call: the work must still be current; if not,
    /// the attach is abandoned.
    pub fn attach_still_current(&mut self, g: u64) -> (r: bool)
        ensures
            r == !stale(*old(self), g),
            *final(self) == (IosOverlaySession {
                attach_in_flight: old(self).attach_in_flight && r,
                ..*old(self)
            }),
    {
        if self.lifecycle_stale(g) {
            self.attach_in_flight = false;
            return false;
        }
        true
    }

    /// The attach call returned: unless it scheduled the attach, the attach is
    /// no longer in flight. A failed call (`None`) counts as not scheduled.
    pub fn attach_call_returned(&mut self, outcome: Option<IosLayerAttachOutcome>)
        ensures
            *final(self) == (IosOverlaySession {
                attach_in_flight: old(self).attach_in_flight
                    && outcome == Some(IosLayerAttachOutcome::Scheduled),
                ..*old(self)
            }),
    {
        match outcome {
            Some(IosLayerAttachOutcome::Scheduled) => {},
            _ => {
                self.attach_in_flight = false;
            },
        }
    }

    /// The attach completion ran: a successful attach of current work binds
    /// the overlay to `host_view`; the attach is over either way. Returns
    /// whether the idle target-state apply is to be scheduled.
    pub fn finish_attach(&mut self, g: u64, host_view: usize, attached: bool) -> (apply: bool)
        ensures
            apply == (attached && !stale(*old(self), g)),
            *final(self) == (if apply {
                IosOverlaySession {
                    overlay_bound: true,
                    attach_in_flight: false,
                    last_applied_handle: host_view,
                    ..*old(self)
                }
            } else {
                IosOverlaySession { attach_in_flight: false, ..*old(self) }
            }),
    {
        if !attached || self.lifecycle_stale(g) {
            self.attach_in_flight = false;
            return false;
        }
        self.overlay_bound = true;
        self.attach_in_flight = false;
        self.last_applied_handle = host_view;
        true
    }

    /// Enters the idle target-state apply for work at `g`; false when stale or
    /// already running.
    pub fn begin_target_state(&mut self, g: u64) -> (r: bool)
        ensures
            r == (!stale(*old(self), g) && !old(self).state_apply_in_flight),
            *final(self) == (IosOverlaySession {
                state_apply_in_flight: old(self).state_apply_in_flight || r,
                ..*old(self)
            }),
    {
        if self.lifecycle_stale(g) {
            return false;
        }
        if self.state_apply_in_flight {
            return false;
        }
        self.state_apply_in_flight = true;
        true
    }

    /// Leaves the idle target-state apply.
    pub fn end_target_state(&mut self)
        ensures
            *final(self) == (IosOverlaySession { state_apply_in_flight: false, ..*old(self) }),
    {
        self.state_apply_in_flight = false;
    }

    /// Whether play is wanted: desired by the user, or pending since before
    /// the overlay was bound (the pending request is consumed).
    pub fn take_want_play(&mut self, desired_playing: bool) -> (want: bool)
        ensures
            want == (desired_playing || old(self).pending_play_after_overlay),
            *final(self) == (IosOverlaySession {
                pending_play_after_overlay: old(self).pending_play_after_overlay && desired_playing,
                ..*old(self)
            }),
    {
        if desired_playing {
            return true;
        }
        let pending = self.pending_play_after_overlay;
        self.pending_play_after_overlay = false;
        pending
    }

    /// The target-state decision, once the overlay is bound: stale work stops;
    /// buffering while play is wanted pauses a playing pipeline (and holds
    /// otherwise); without play wanted nothing changes; else the bind-path
    /// preroll runs.
    pub fn target_plan(&self, g: u64, want_play: bool, current: PipelineState) -> (p: TargetPlan)
        ensures
            p == planned(*self, g, want_play, current),
    {
        if self.lifecycle_stale(g) {
            return TargetPlan::Stop;
        }
        if self.buffering_active && want_play {
            if current == PipelineState::Playing {
                return TargetPlan::PauseForBuffering;
            }
            return TargetPlan::Hold;
        }
        if !want_play {
            return TargetPlan::Hold;
        }
        TargetPlan::RunPreroll { overlay_ready: self.is_bound() }
    }

    /// A layout report from Swift: caches the size, resets when the host
    /// changed, and says what to schedule.
    pub fn plan_layout_apply(&mut self, stored: Option<usize>, width: i32, height: i32, desired_playing: bool) -> (a: LayoutApply)
        ensures
            width <= 0 || height <= 0 ==> a == LayoutApply::Nothing && *final(self) == *old(self),
            width > 0 && height > 0 ==> {
                let sized = IosOverlaySession {
                    last: CachedDimensions { width, height },
                    ..*old(self)
                };
                let reset = if stored is Some && sized.last_applied_handle != 0
                    && sized.last_applied_handle != stored->0 {
                    host_reset(sized)
                } else {
                    sized
                };
                &&& *final(self) == (if stored is Some { reset } else { sized })
                &&& a == (if stored is None {
                    LayoutApply::Nothing
                } else if reset.overlay_bound && reset.last_applied_handle == stored->0 {
                    let changed = old(self).last.width != width || old(self).last.height != height;
                    if changed || desired_playing {
                        LayoutApply::Refresh {
                            dimensions_changed: changed,
                            work_generation: old(self).overlay_generation,
                        }
                    } else {
                        LayoutApply::Nothing
                    }
                } else {
                    LayoutApply::Attach { work_generation: old(self).overlay_generation }
                })
            },
    {
        if width <= 0 || height <= 0 {
            return LayoutApply::Nothing;
        }
        let prev_w = self.last.width;
        let prev_h = self.last.height;
        self.last.update(width, height);
        let host_view = match stored {
            Some(h) => h,
            None => {
                return LayoutApply::Nothing;
            },
        };
        let last_applied = self.last_applied_handle;
        if last_applied != 0 && last_applied != host_view {
            self.reset_for_host_change();
        }
        if self.is_bound() && self.last_applied_handle == host_view {
            let dimensions_changed = prev_w != width || prev_h != height;
            if dimensions_changed || desired_playing {
                return LayoutApply::Refresh {
                    dimensions_changed,
                    work_generation: self.overlay_generation,
                };
            }
            return LayoutApply::Nothing;
        }
        LayoutApply::Attach { work_generation: self.overlay_generation }
    }
}

impl OverlaySession for IosOverlaySession {
    open spec fn bound(&self) -> bool {
        self.overlay_bound
    }

    /// iOS never prerolls on load; the attach is deferred to the session.
    open spec fn load_gate(&self, surface_overlay_ready: bool) -> bool {
        false
    }

    open spec fn preroll_gate(&self, has_cached_handle: bool) -> bool {
        has_cached_handle
    }

    open spec fn dims(&self) -> (i32, i32) {
        (self.last.width, self.last.height)
    }

    open spec fn keeps_dims(&self) -> bool {
        true
    }

    fn gate_ready_for_load(&self, surface_overlay_ready: bool) -> (r: bool) {
        false
    }

    fn is_bound(&self) -> (r: bool) {
        self.overlay_bound
    }

    fn overlay_ready_for_preroll(&self, has_cached_handle: bool) -> (r: bool) {
        has_cached_handle
    }

    fn mark_shell_rebuilt(&mut self)
        ensures
            *final(self) == reset_state(IosOverlaySession {
                overlay_generation: next_generation(old(self).overlay_generation),
                ..*old(self)
            }),
    {
        self.bump_overlay_generation();
        self.reset_for_shell_rebuild();
    }

    fn set_cached_dimensions(&mut self, width: i32, height: i32)
        ensures
            *final(self) == (IosOverlaySession {
                last: CachedDimensions {
                    width: updated_dims(old(self).dims(), width, height).0,
                    height: updated_dims(old(self).dims(), width, height).1,
                },
                ..*old(self)
            }),
    {
        self.last.update(width, height);
    }

    fn cached_dimensions(&self) -> (r: (i32, i32)) {
        (self.last.width, self.last.height)
    }
}

/// What one CALayer attach attempt has learned so far. `None` means not asked
/// yet; the attempt asks in the order [`ios_attach_next`] gives.
#[derive(Debug, Clone, Copy, PartialEq, Eq)]
pub struct IosAttachFacts {
    /// The host view to attach to (`0`: none).
    pub host_view: usize,
    /// The shell holds media that has not played yet.
    pub has_pending_media: bool,
    /// The attach work was stale when the attempt began.
    pub stale_at_start: bool,
    /// The host view has non-zero bounds.
    pub host_ready: Option<bool>,
    /// The sink's `layer` could be read with the pipeline at `Ready`.
    pub layer_at_ready: Option<bool>,
    /// The fallback Paused preroll succeeded.
    pub fallback_prerolled: Option<bool>,
    /// The work was stale right after the fallback preroll.
    pub stale_after_preroll: Option<bool>,
    /// The sink's `layer` could be read after the fallback preroll.
    pub layer_after_preroll: Option<bool>,
    /// The work was stale when reading the layer after the preroll failed.
    pub stale_after_missing_layer: Option<bool>,
    /// The synchronous attach of the layer that was read succeeded.
    pub attached: Option<bool>,
}

/// The next thing an attach attempt does.
#[derive(Debug, Clone, Copy, PartialEq, Eq)]
pub enum IosAttachNext {
    /// Ask whether the host view has non-zero bounds.
    CheckHostReady,
    /// Read the sink's `layer` property.
    ReadLayer,
    /// Preroll the pipeline to Paused so that the sink exposes its layer.
    FallbackPreroll,
    /// Ask whether the attach work has gone stale.
    CheckStale,
    /// Attach the layer that was read, synchronously on the main thread,
    /// prerolling afterwards when `preroll_after` holds.
    SyncAttach { preroll_after: bool },
    /// The attempt is over: undo the fallback preroll first when `rollback`
    /// holds, run the completion with `completion` when it is `Some`, and
    /// report `outcome`.
    Finish { outcome: IosLayerAttachOutcome, rollback: bool, completion: Option<bool> },
}

/// The outcome reported for a finished synchronous attach.
pub open spec fn attach_outcome(attached: bool) -> IosLayerAttachOutcome {
    if attached { IosLayerAttachOutcome::Scheduled } else { IosLayerAttachOutcome::LayerNotReady }
}

/// Ends an attempt with `outcome`, no rollback and no completion.
pub open spec fn finish_plain(outcome: IosLayerAttachOutcome) -> IosAttachNext {
    IosAttachNext::Finish { outcome, rollback: false, completion: None }
}

/// The attach rule. No host view, or stale work, skips. A host view without
/// bounds is not ready yet. A layer readable at `Ready` is attached at once
/// (prerolling afterwards when media is pending). Otherwise, with media
/// pending, the pipeline is prerolled to expose the layer: stale work then
/// skips (undoing a preroll that succeeded), a layer now readable is attached
/// (the preroll is undone if that attach fails), and a layer still missing
/// leaves the attempt not ready (undoing the preroll unless the work went stale).
pub open spec fn ios_attach_rule(f: IosAttachFacts) -> IosAttachNext {
    if f.host_view == 0 || f.stale_at_start {
        finish_plain(IosLayerAttachOutcome::Skipped)
    } else {
        match f.host_ready {
            None => IosAttachNext::CheckHostReady,
            Some(false) => finish_plain(IosLayerAttachOutcome::LayerNotReady),
            Some(true) => match f.layer_at_ready {
                None => IosAttachNext::ReadLayer,
                Some(true) => match f.attached {
                    None => IosAttachNext::SyncAttach { preroll_after: f.has_pending_media },
                    Some(a) => IosAttachNext::Finish {
                        outcome: attach_outcome(a),
                        rollback: false,
                        completion: Some(a),
                    },
                },
                Some(false) => if !f.has_pending_media {
                    finish_plain(IosLayerAttachOutcome::LayerNotReady)
                } else {
                    match f.fallback_prerolled {
                        None => IosAttachNext::FallbackPreroll,
                        Some(p) => match f.stale_after_preroll {
                            None => IosAttachNext::CheckStale,
                            Some(true) => IosAttachNext::Finish {
                                outcome: IosLayerAttachOutcome::Skipped,
                                rollback: p,
                                completion: None,
                            },
                            Some(false) => match f.layer_after_preroll {
                                None => IosAttachNext::ReadLayer,
                                Some(true) => match f.attached {
                                    None => IosAttachNext::SyncAttach { preroll_after: false },
                                    Some(a) => IosAttachNext::Finish {
                                        outcome: attach_outcome(a),
                                        rollback: !a && p,
                                        completion: Some(a),
                                    },
                                },
                                Some(false) => if !p {
                                    finish_plain(IosLayerAttachOutcome::LayerNotReady)
                                } else {
                                    match f.stale_after_missing_layer {
                                        None => IosAttachNext::CheckStale,
                                        Some(st) => IosAttachNext::Finish {
                                            outcome: IosLayerAttachOutcome::LayerNotReady,
                                            rollback: !st,
                                            completion: None,
                                        },
                                    }
                                },
                            },
                        },
                    }
                },
            },
        }
    }
}

/// Decides the next step of a CALayer attach attempt from what it has learned
/// so far; the application performs the step, records the answer in `facts`
/// and asks again until the attempt finishes.
pub fn ios_attach_next(facts: IosAttachFacts) -> (next: IosAttachNext)
    ensures
        next == ios_attach_rule(facts),
{
    if facts.host_view == 0 || facts.stale_at_start {
        return IosAttachNext::Finish { outcome: IosLayerAttachOutcome::Skipped, rollback: false, completion: None };
    }
    let host_ready = match facts.host_ready {
        None => return IosAttachNext::CheckHostReady,
        Some(r) => r,
    };
    if !host_ready {
        return IosAttachNext::Finish { outcome: IosLayerAttachOutcome::LayerNotReady, rollback: false, completion: None };
    }
    let layer_at_ready = match facts.layer_at_ready {
        None => return IosAttachNext::ReadLayer,
        Some(l) => l,
    };
    if layer_at_ready {
        return match facts.attached {
            None => IosAttachNext::SyncAttach { preroll_after: facts.has_pending_media },
            Some(a) => IosAttachNext::Finish {
                outcome: if a { IosLayerAttachOutcome::Scheduled } else { IosLayerAttachOutcome::LayerNotReady },
                rollback: false,
                completion: Some(a),
            },
        };
    }
    if !facts.has_pending_media {
        return IosAttachNext::Finish { outcome: IosLayerAttachOutcome::LayerNotReady, rollback: false, completion: None };
    }
    let prerolled = match facts.fallback_prerolled {
        None => return IosAttachNext::FallbackPreroll,
        Some(p) => p,
    };
    let stale_after_preroll = match facts.stale_after_preroll {
        None => return IosAttachNext::CheckStale,
        Some(st) => st,
    };
    if stale_after_preroll {
        return IosAttachNext::Finish { outcome: IosLayerAttachOutcome::Skipped, rollback: prerolled, completion: None };
    }
    let layer_after_preroll = match facts.layer_after_preroll {
        None => return IosAttachNext::ReadLayer,
        Some(l) => l,
    };
    if layer_after_preroll {
        return match facts.attached {
            None => IosAttachNext::SyncAttach { preroll_after: false },
            Some(a) => IosAttachNext::Finish {
                outcome: if a { IosLayerAttachOutcome::Scheduled } else { IosLayerAttachOutcome::LayerNotReady },
                rollback: !a && prerolled,
                completion: Some(a),
            },
        };
    }
    if !prerolled {
        return IosAttachNext::Finish { outcome: IosLayerAttachOutcome::LayerNotReady, rollback: false, completion: None };
    }
    match facts.stale_after_missing_layer {
        None => IosAttachNext::CheckStale,
        Some(st) => IosAttachNext::Finish { outcome: IosLayerAttachOutcome::LayerNotReady, rollback: !st, completion: None },
    }
}

/// What one synchronous attach of a read layer has learned so far.
#[derive(Debug, Clone, Copy, PartialEq, Eq)]
pub struct SyncAttachFacts {
    /// Preroll to Paused once the layer is attached.
    pub preroll_after: bool,
    /// The attach work has gone stale.
    pub stale: Option<bool>,
    /// The main-thread attach succeeded.
    pub attached_on_main: Option<bool>,
    /// The preroll after attaching succeeded.
    pub preroll_ok: Option<bool>,
}

/// The next thing a synchronous attach does.
#[derive(Debug, Clone, Copy, PartialEq, Eq)]
pub enum SyncAttachNext {
    /// Ask whether the attach work has gone stale.
    CheckStale,
    /// Attach the layer to the host view on the main thread.
    AttachOnMain,
    /// Preroll the pipeline to Paused.
    Preroll,
    /// Done: release the layer's retain when `release_layer` holds, undo the
    /// preroll when `rollback` holds, and report whether the layer is attached.
    Done { attached: bool, release_layer: bool, rollback: bool },
}

/// The synchronous attach rule: stale work releases the layer and fails; a
/// failed main-thread attach releases the layer and fails; an attach that
/// needs no preroll succeeds; otherwise the preroll decides, and a failed
/// preroll is undone.
pub open spec fn sync_attach_rule(f: SyncAttachFacts) -> SyncAttachNext {
    match f.stale {
        None => SyncAttachNext::CheckStale,
        Some(true) => SyncAttachNext::Done { attached: false, release_layer: true, rollback: false },
        Some(false) => match f.attached_on_main {
            None => SyncAttachNext::AttachOnMain,
            Some(false) => SyncAttachNext::Done { attached: false, release_layer: true, rollback: false },
            Some(true) => if !f.preroll_after {
                SyncAttachNext::Done { attached: true, release_layer: false, rollback: false }
            } else {
                match f.preroll_ok {
                    None => SyncAttachNext::Preroll,
                    Some(ok) => SyncAttachNext::Done { attached: ok, release_layer: false, rollback: !ok },
                }
            },
        },
    }
}

/// Decides the next step of a synchronous layer attach.
pub fn sync_attach_next(facts: SyncAttachFacts) -> (next: SyncAttachNext)
    ensures
        next == sync_attach_rule(facts),
{
    let stale = match facts.stale {
        None => return SyncAttachNext::CheckStale,
        Some(st) => st,
    };
    if stale {
        return SyncAttachNext::Done { attached: false, release_layer: true, rollback: false };
    }
    let attached = match facts.attached_on_main {
        None => return SyncAttachNext::AttachOnMain,
        Some(a) => a,
    };
    if !attached {
        return SyncAttachNext::Done { attached: false, release_layer: true, rollback: false };
    }
    if !facts.preroll_after {
        return SyncAttachNext::Done { attached: true, release_layer: false, rollback: false };
    }
    match facts.preroll_ok {
        None => SyncAttachNext::Preroll,
        Some(ok) => SyncAttachNext::Done { attached: ok, release_layer: false, rollback: !ok },
    }
}

/// One step of the Paused preroll that exposes the sink's layer: a pipeline
/// below `Ready` is first brought to `Ready`; a settled `Ready` pipeline is
/// prerolled to `Paused`; anything else is left alone (`None`). The caller
/// re-reads the state after each step it performs.
pub fn ios_layer_preroll_step(current: PipelineState, pending: PipelineState) -> (target: Option<PipelineState>)
    ensures
        target == (if current == PipelineState::VoidPending || current == PipelineState::Null {
            Some(PipelineState::Ready)
        } else if current == PipelineState::Ready && pending == PipelineState::VoidPending {
            Some(PipelineState::Paused)
        } else {
            None::<PipelineState>
        }),
{
    match current {
        PipelineState::VoidPending | PipelineState::Null => Some(PipelineState::Ready),
        PipelineState::Ready => if pending == PipelineState::VoidPending {
            Some(PipelineState::Paused)
        } else {
            None
        },
        _ => None,
    }
}

/// Undoing a layer preroll brings a pipeline that reached `Paused` or beyond
/// back to `Ready`; a lower pipeline is left alone.
pub fn ios_layer_rollback_needed(current: PipelineState) -> (r: bool)
    ensures
        r == (current == PipelineState::Paused || current == PipelineState::Playing),
{
    current == PipelineState::Paused || current == PipelineState::Playing
}

/// Where an idle target-state apply is.
#[derive(Debug, Clone, Copy, PartialEq, Eq, Structural)]
pub enum IosApplyPhase {
    /// Not entered yet.
    Start,
    /// Entered; the overlay was not bound, so an attach was requested.
    AwaitAttach,
    /// Entered; waiting for the play intent and the pipeline state.
    AwaitObservation,
    /// Entered; pausing for buffering or running the preroll loop.
    AwaitWork,
    /// Over: the apply is no longer in flight (if this run entered it).
    Done,
}

/// What the caller reports back to a target-state apply.
#[derive(Debug, Clone, Copy, PartialEq, Eq, Structural)]
pub enum IosApplyEvent {
    /// The scheduled apply runs.
    Begin,
    /// The attach request returned (whatever its outcome).
    AttachReturned,
    /// The user's play intent and the pipeline's current state.
    Observed { desired_playing: bool, current: PipelineState },
    /// The pause or the preroll loop returned (whatever its outcome).
    WorkReturned,
}

/// What a target-state apply asks the caller to do next.
#[derive(Debug, Clone, Copy, PartialEq, Eq, Structural)]
pub enum IosApplyAction {
    /// Request a CALayer attach.
    RequestAttach,
    /// Read the play intent and the pipeline's current state.
    Observe,
    /// Set the pipeline to Paused (buffering while play is wanted).
    PauseForBuffering,
    /// Run the bind-path preroll loop.
    RunPreroll { want_play: bool, overlay_ready: bool },
    /// Nothing more.
    Finish,
}

/// The next phase of a target-state apply and what to do in it.
#[derive(Debug, Clone, Copy, PartialEq, Eq, Structural)]
pub struct IosApplyStep {
    pub phase: IosApplyPhase,
    pub action: IosApplyAction,
}

/// The step that ends a target-state apply.
pub open spec fn ios_apply_done() -> IosApplyStep {
    IosApplyStep { phase: IosApplyPhase::Done, action: IosApplyAction::Finish }
}

/// `s` with the target-state apply no longer in flight.
pub open spec fn apply_left(s: IosOverlaySession) -> IosOverlaySession {
    IosOverlaySession { state_apply_in_flight: false, ..s }
}

/// The target-state apply protocol. Stale work, or an apply already in
/// flight, ends at once with nothing changed. Otherwise the apply is entered;
/// an unbound overlay first requests an attach and ends unless it is now
/// bound and still current. Play is wanted when desired or pending (the
/// pending request is consumed); then [`planned`] decides: pause a playing
/// pipeline while buffering, run the preroll loop, or end. Every end after
/// entering leaves the apply no longer in flight, also after a report out of
/// order.
pub open spec fn ios_apply_rule(
    s: IosOverlaySession,
    g: u64,
    phase: IosApplyPhase,
    event: IosApplyEvent,
) -> (IosOverlaySession, IosApplyStep) {
    match phase {
        IosApplyPhase::Start => {
            if event != IosApplyEvent::Begin || stale(s, g) || s.state_apply_in_flight {
                (s, ios_apply_done())
            } else {
                let entered = IosOverlaySession { state_apply_in_flight: true, ..s };
                if !s.overlay_bound {
                    (entered, IosApplyStep { phase: IosApplyPhase::AwaitAttach, action: IosApplyAction::RequestAttach })
                } else {
                    (entered, IosApplyStep { phase: IosApplyPhase::AwaitObservation, action: IosApplyAction::Observe })
                }
            }
        },
        IosApplyPhase::AwaitAttach => {
            if event == IosApplyEvent::AttachReturned && s.overlay_bound && !stale(s, g) {
                (s, IosApplyStep { phase: IosApplyPhase::AwaitObservation, action: IosApplyAction::Observe })
            } else {
                (apply_left(s), ios_apply_done())
            }
        },
        IosApplyPhase::AwaitObservation => match event {
            IosApplyEvent::Observed { desired_playing, current } => {
                let want_play = desired_playing || s.pending_play_after_overlay;
                let s1 = IosOverlaySession {
                    pending_play_after_overlay: s.pending_play_after_overlay && desired_playing,
                    ..s
                };
                match planned(s1, g, want_play, current) {
                    TargetPlan::PauseForBuffering => (s1, IosApplyStep {
                        phase: IosApplyPhase::AwaitWork,
                        action: IosApplyAction::PauseForBuffering,
                    }),
                    TargetPlan::RunPreroll { overlay_ready } => (s1, IosApplyStep {
                        phase: IosApplyPhase::AwaitWork,
                        action: IosApplyAction::RunPreroll { want_play, overlay_ready },
                    }),
                    _ => (apply_left(s1), ios_apply_done()),
                }
            },
            _ => (apply_left(s), ios_apply_done()),
        },
        IosApplyPhase::AwaitWork => (apply_left(s), ios_apply_done()),
        IosApplyPhase::Done => (s, ios_apply_done()),
    }
}

/// Where a CALayer attach request is.
#[derive(Debug, Clone, Copy, PartialEq, Eq, Structural)]
pub enum IosAttachRequestPhase {
    /// Not started.
    Start,
    /// An attach to `host_view` was claimed; the shell's pipeline, sink and
    /// pending media are being read.
    AwaitShell { host_view: usize },
    /// The attach attempt to `host_view` is running.
    AwaitAttachCall { host_view: usize },
    /// Over.
    Done,
}

/// What the caller reports back to an attach request.
#[derive(Debug, Clone, Copy, PartialEq, Eq, Structural)]
pub enum IosAttachRequestEvent {
    /// The request starts with this cached host view.
    Begin { stored: Option<usize> },
    /// The shell was read.
    ShellRead,
    /// The attach attempt returned this outcome (`None`: it failed).
    AttachReturned { outcome: Option<IosLayerAttachOutcome> },
}

/// What an attach request asks the caller to do next.
#[derive(Debug, Clone, Copy, PartialEq, Eq, Structural)]
pub enum IosAttachRequestAction {
    /// Read the shell's pipeline, sink and pending media.
    ReadShell,
    /// Run the attach attempt on `host_view`.
    CallAttach { host_view: usize },
    /// Over: report `outcome` (`None`: the attempt failed), after scheduling
    /// the target-state apply when `schedule_apply` holds.
    Finish { outcome: Option<IosLayerAttachOutcome>, schedule_apply: bool },
}

/// The next phase of an attach request and what to do in it.
#[derive(Debug, Clone, Copy, PartialEq, Eq, Structural)]
pub struct IosAttachRequestStep {
    pub phase: IosAttachRequestPhase,
    pub action: IosAttachRequestAction,
}

/// Ends an attach request reporting `Skipped`.
pub open spec fn attach_request_skipped(schedule_apply: bool) -> IosAttachRequestStep {
    IosAttachRequestStep {
        phase: IosAttachRequestPhase::Done,
        action: IosAttachRequestAction::Finish {
            outcome: Some(IosLayerAttachOutcome::Skipped),
            schedule_apply,
        },
    }
}

/// `s` with no attach in flight.
pub open spec fn attach_left(s: IosOverlaySession) -> IosOverlaySession {
    IosOverlaySession { attach_in_flight: false, ..s }
}

/// The attach-request protocol. Stale work skips with nothing changed; a
/// bound overlay skips and schedules the target-state apply; an attach in
/// flight, or no host view, skips. Otherwise the attach is claimed, the
/// shell is read, and stale work then gives the claim back and skips. The
/// attempt's outcome is reported as it came; the claim stays only when the
/// attempt scheduled the attach. A report out of order gives the claim back
/// and skips.
pub open spec fn ios_attach_request_rule(
    s: IosOverlaySession,
    g: u64,
    phase: IosAttachRequestPhase,
    event: IosAttachRequestEvent,
) -> (IosOverlaySession, IosAttachRequestStep) {
    match phase {
        IosAttachRequestPhase::Start => match event {
            IosAttachRequestEvent::Begin { stored } => {
                if stale(s, g) {
                    (s, attach_request_skipped(false))
                } else if s.overlay_bound {
                    (s, attach_request_skipped(true))
                } else if s.attach_in_flight {
                    (s, attach_request_skipped(false))
                } else if stored is Some && stored->0 != 0 {
                    (IosOverlaySession { attach_in_flight: true, ..s }, IosAttachRequestStep {
                        phase: IosAttachRequestPhase::AwaitShell { host_view: stored->0 },
                        action: IosAttachRequestAction::ReadShell,
                    })
                } else {
                    (s, attach_request_skipped(false))
                }
            },
            _ => (s, attach_request_skipped(false)),
        },
        IosAttachRequestPhase::AwaitShell { host_view } => {
            if event == IosAttachRequestEvent::ShellRead && !stale(s, g) {
                (s, IosAttachRequestStep {
                    phase: IosAttachRequestPhase::AwaitAttachCall { host_view },
                    action: IosAttachRequestAction::CallAttach { host_view },
                })
            } else {
                (attach_left(s), attach_request_skipped(false))
            }
        },
        IosAttachRequestPhase::AwaitAttachCall { host_view } => match event {
            IosAttachRequestEvent::AttachReturned { outcome } => (
                IosOverlaySession {
                    attach_in_flight: s.attach_in_flight && outcome == Some(IosLayerAttachOutcome::Scheduled),
                    ..s
                },
                IosAttachRequestStep {
                    phase: IosAttachRequestPhase::Done,
                    action: IosAttachRequestAction::Finish { outcome, schedule_apply: false },
                },
            ),
            _ => (attach_left(s), attach_request_skipped(false)),
        },
        IosAttachRequestPhase::Done => (s, attach_request_skipped(false)),
    }
}

impl IosOverlaySession {
    /// One step of the idle target-state apply for work at `g`.
    pub fn apply_step(&mut self, g: u64, phase: IosApplyPhase, event: IosApplyEvent) -> (step: IosApplyStep)
        ensures
            (*final(self), step) == ios_apply_rule(*old(self), g, phase, event),
    {
        let done = IosApplyStep { phase: IosApplyPhase::Done, action: IosApplyAction::Finish };
        match phase {
            IosApplyPhase::Start => {
                if event != IosApplyEvent::Begin || !self.begin_target_state(g) {
                    return done;
                }
                if !self.is_bound() {
                    IosApplyStep { phase: IosApplyPhase::AwaitAttach, action: IosApplyAction::RequestAttach }
                } else {
                    IosApplyStep { phase: IosApplyPhase::AwaitObservation, action: IosApplyAction::Observe }
                }
            },
            IosApplyPhase::AwaitAttach => {
                if event == IosApplyEvent::AttachReturned && self.is_bound() && !self.lifecycle_stale(g) {
                    IosApplyStep { phase: IosApplyPhase::AwaitObservation, action: IosApplyAction::Observe }
                } else {
                    self.end_target_state();
                    done
                }
            },
            IosApplyPhase::AwaitObservation => match event {
                IosApplyEvent::Observed { desired_playing, current } => {
                    let want_play = self.take_want_play(desired_playing);
                    match self.target_plan(g, want_play, current) {
                        TargetPlan::PauseForBuffering => IosApplyStep {
                            phase: IosApplyPhase::AwaitWork,
                            action: IosApplyAction::PauseForBuffering,
                        },
                        TargetPlan::RunPreroll { overlay_ready } => IosApplyStep {
                            phase: IosApplyPhase::AwaitWork,
                            action: IosApplyAction::RunPreroll { want_play, overlay_ready },
                        },
                        _ => {
                            self.end_target_state();
                            done
                        },
                    }
                },
                _ => {
                    self.end_target_state();
                    done
                },
            },
            IosApplyPhase::AwaitWork => {
                self.end_target_state();
                done
            },
            IosApplyPhase::Done => done,
        }
    }

    /// One step of a CALayer attach request for work at `g`.
    pub fn attach_request_step(
        &mut self,
        g: u64,
        phase: IosAttachRequestPhase,
        event: IosAttachRequestEvent,
    ) -> (step: IosAttachRequestStep)
        ensures
            (*final(self), step) == ios_attach_request_rule(*old(self), g, phase, event),
    {
        let skipped = IosAttachRequestStep {
            phase: IosAttachRequestPhase::Done,
            action: IosAttachRequestAction::Finish { outcome: Some(IosLayerAttachOutcome::Skipped), schedule_apply: false },
        };
        match phase {
            IosAttachRequestPhase::Start => match event {
                IosAttachRequestEvent::Begin { stored } => match self.begin_request_attach(g, stored) {
                    AttachRequest::Skipped => skipped,
                    AttachRequest::ApplyBound => IosAttachRequestStep {
                        phase: IosAttachRequestPhase::Done,
                        action: IosAttachRequestAction::Finish {
                            outcome: Some(IosLayerAttachOutcome::Skipped),
                            schedule_apply: true,
                        },
                    },
                    AttachRequest::Attach { host_view } => IosAttachRequestStep {
                        phase: IosAttachRequestPhase::AwaitShell { host_view },
                        action: IosAttachRequestAction::ReadShell,
                    },
                },
                _ => skipped,
            },
            IosAttachRequestPhase::AwaitShell { host_view } => {
                if event == IosAttachRequestEvent::ShellRead {
                    if self.attach_still_current(g) {
                        return IosAttachRequestStep {
                            phase: IosAttachRequestPhase::AwaitAttachCall { host_view },
                            action: IosAttachRequestAction::CallAttach { host_view },
                        };
                    }
                    return skipped;
                }
                self.attach_in_flight = false;
                skipped
            },
            IosAttachRequestPhase::AwaitAttachCall { host_view } => match event {
                IosAttachRequestEvent::AttachReturned { outcome } => {
                    self.attach_call_returned(outcome);
                    IosAttachRequestStep {
                        phase: IosAttachRequestPhase::Done,
                        action: IosAttachRequestAction::Finish { outcome, schedule_apply: false },
                    }
                },
                _ => {
                    self.attach_in_flight = false;
                    skipped
                },
            },
            IosAttachRequestPhase::Done => skipped,
        }
    }
}

} // verus!
