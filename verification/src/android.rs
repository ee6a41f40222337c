//! Android overlay session: JNI callbacks only cache the native window; the
//! GStreamer bind runs later on the Gst thread, and a generation counter makes
//! stale work a no-op.

use vstd::prelude::*;

use crate::overlay::{cached_slot, updated_dims, CachedDimensions, OverlaySession};

verus! {

/// The generation after `g` (wrapping, as an atomic counter does).
pub open spec fn next_generation(g: u64) -> u64 {
    if g == u64::MAX { 0 } else { (g + 1) as u64 }
}

pub fn bump_generation(g: u64) -> (r: u64)
    ensures
        r == next_generation(g),
{
    if g == u64::MAX { 0 } else { g + 1 }
}

/// The window to release when `handle` replaces the cached one: the old
/// window when it is dropped (`0`) or replaced by a different one.
pub open spec fn released_window(old: Option<usize>, handle: usize) -> Option<usize> {
    if handle == 0 {
        old
    } else if old is Some && old->0 != handle {
        old
    } else {
        None
    }
}

/// Caches (or, for `0`, drops) an Android native window handle and returns
/// the previously cached window that must now be released.
pub fn cache_android_native_window(stored: &mut Option<usize>, handle: usize) -> (release: Option<usize>)
    ensures
        *final(stored) == cached_slot(handle),
        release == released_window(*old(stored), handle),
{
    if handle == 0 {
        let old = *stored;
        *stored = None;
        return old;
    }
    let old = *stored;
    *stored = Some(handle);
    match old {
        Some(o) => if o != handle { Some(o) } else { None },
        None => None,
    }
}

/// The native window a JNI handle names (`0` for a destroyed surface).
pub open spec fn window_of(handle: i64) -> usize {
    if handle == 0 { 0 } else { handle as usize }
}

/// Android overlay session state. It has one owner and no copies, so its
/// bind state is the same for every holder of the surface.
#[derive(Debug, PartialEq, Eq, Structural)]
pub struct AndroidOverlaySession {
    pub overlay_bound: bool,
    pub overlay_generation: u64,
    pub attach_in_flight: bool,
    pub last: CachedDimensions,
}

/// What a surface notification asks the Gst thread to do.
#[derive(Debug, Clone, Copy, PartialEq, Eq, Structural)]
pub enum SurfaceWork {
    /// Clear the overlay handle on the sink, unless the generation moved on.
    Clear { work_generation: u64 },
    /// Apply the cached window at this size, unless the generation moved on.
    Apply { work_generation: u64, width: i32, height: i32 },
    /// An apply is already in flight; it will pick up the new window.
    Coalesced,
}

/// The outcome of a surface notification: the window to release now, and the
/// Gst-thread work to schedule.
#[derive(Debug, Clone, Copy, PartialEq, Eq, Structural)]
pub struct SurfaceNotify {
    pub release: Option<usize>,
    pub work: SurfaceWork,
}

impl AndroidOverlaySession {
    /// An unbound session.
    pub fn new() -> (s: Self)
        ensures
            !s.overlay_bound,
            s.overlay_generation == 0,
            !s.attach_in_flight,
            s.dims() == (0i32, 0i32),
    {
        AndroidOverlaySession {
            overlay_bound: false,
            overlay_generation: 0,
            attach_in_flight: false,
            last: CachedDimensions::new(),
        }
    }

    /// The current overlay work generation.
    pub fn overlay_generation(&self) -> (g: u64)
        ensures
            g == self.overlay_generation,
    {
        self.overlay_generation
    }

    /// Bumps the generation, invalidating in-flight attach/clear work.
    pub fn bump_overlay_generation(&mut self)
        ensures
            *final(self) == (AndroidOverlaySession {
                overlay_generation: next_generation(old(self).overlay_generation),
                ..*old(self)
            }),
    {
        self.overlay_generation = bump_generation(self.overlay_generation);
    }

    pub fn set_bound(&mut self, bound: bool)
        ensures
            *final(self) == (AndroidOverlaySession { overlay_bound: bound, ..*old(self) }),
    {
        self.overlay_bound = bound;
    }

    /// The generation to capture with scheduled work.
    pub fn work_generation(&self) -> (g: u64)
        ensures
            g == self.overlay_generation,
    {
        self.overlay_generation
    }

    /// Work captured at `work_generation` is stale once the generation moved.
    pub fn lifecycle_stale(&self, work_generation: u64) -> (r: bool)
        ensures
            r == (work_generation != self.overlay_generation),
    {
        work_generation != self.overlay_generation
    }

    /// JNI-safe notification: unbinds and caches the window (or drops it for
    /// `0`); the reported size is not used here.
    pub fn cache_surface_notify(&mut self, stored: &mut Option<usize>, handle: i64) -> (release: Option<usize>)
        ensures
            *final(self) == (AndroidOverlaySession { overlay_bound: false, ..*old(self) }),
            *final(stored) == cached_slot(window_of(handle)),
            release == released_window(*old(stored), window_of(handle)),
    {
        self.set_bound(false);
        if handle == 0 {
            return cache_android_native_window(stored, 0);
        }
        cache_android_native_window(stored, handle as usize)
    }

    /// Starts an apply unless one is in flight: marks it in flight and returns
    /// the generation it runs under.
    pub fn try_begin_apply(&mut self) -> (g: Option<u64>)
        ensures
            g == (if old(self).attach_in_flight { None } else { Some(old(self).overlay_generation) }),
            *final(self) == (AndroidOverlaySession { attach_in_flight: true, ..*old(self) }),
    {
        if self.attach_in_flight {
            return None;
        }
        self.attach_in_flight = true;
        Some(self.overlay_generation)
    }

    /// On the Gst thread: the window to apply for work captured at
    /// `work_generation`, or nothing when the work is stale or no window is
    /// cached (which also unbinds).
    pub fn apply_target(&mut self, work_generation: u64, stored: Option<usize>) -> (h: Option<usize>)
        ensures
            h == (if work_generation != old(self).overlay_generation { None } else { stored }),
            *final(self) == (AndroidOverlaySession {
                overlay_bound: old(self).overlay_bound
                    && (work_generation != old(self).overlay_generation || stored is Some),
                ..*old(self)
            }),
    {
        if self.lifecycle_stale(work_generation) {
            return None;
        }
        match stored {
            Some(handle) => Some(handle),
            None => {
                self.set_bound(false);
                None
            },
        }
    }

    /// Ends an apply (whatever its outcome): no longer in flight.
    pub fn end_apply(&mut self)
        ensures
            *final(self) == (AndroidOverlaySession { attach_in_flight: false, ..*old(self) }),
    {
        self.attach_in_flight = false;
    }

    /// After the cached window was re-applied to a new sink: bound when one is
    /// cached, unchanged otherwise.
    pub fn after_rebind(&mut self, stored: &Option<usize>)
        ensures
            *final(self) == (AndroidOverlaySession {
                overlay_bound: old(self).overlay_bound || stored is Some,
                ..*old(self)
            }),
    {
        if stored.is_some() {
            self.set_bound(true);
        }
    }

    /// A surface notification from JNI: caches the window and schedules the
    /// Gst-thread work (clear for a destroyed surface, apply otherwise).
    pub fn notify_surface(&mut self, stored: &mut Option<usize>, handle: i64) -> (n: SurfaceNotify)
        ensures
            *final(stored) == cached_slot(window_of(handle)),
            n.release == released_window(*old(stored), window_of(handle)),
            !final(self).overlay_bound,
            final(self).overlay_generation == old(self).overlay_generation,
            final(self).last == old(self).last,
            n.work == (if handle == 0 {
                SurfaceWork::Clear { work_generation: old(self).overlay_generation }
            } else if old(self).attach_in_flight {
                SurfaceWork::Coalesced
            } else {
                SurfaceWork::Apply {
                    work_generation: old(self).overlay_generation,
                    width: old(self).last.width,
                    height: old(self).last.height,
                }
            }),
            final(self).attach_in_flight == (old(self).attach_in_flight || handle != 0),
    {
        if handle == 0 {
            let work_generation = self.work_generation();
            let release = self.cache_surface_notify(stored, 0);
            return SurfaceNotify { release, work: SurfaceWork::Clear { work_generation } };
        }
        let release = self.cache_surface_notify(stored, handle);
        let (width, height) = self.cached_dimensions();
        let work = match self.try_begin_apply() {
            Some(work_generation) => SurfaceWork::Apply { work_generation, width, height },
            None => SurfaceWork::Coalesced,
        };
        SurfaceNotify { release, work }
    }
}

/// Where a scheduled Android surface apply is.
#[derive(Debug, Clone, Copy, PartialEq, Eq, Structural)]
pub enum AndroidApplyPhase {
    /// Claimed by [`AndroidOverlaySession::notify_surface`] for work captured
    /// at `work_generation` and handed to the Gst thread.
    Scheduled { work_generation: u64 },
    /// The window is being set on the sink.
    Applying,
    /// The bind-path preroll loop is running.
    Prerolling,
    /// Over: the apply slot is free again.
    Done,
}

/// What the Gst thread reports back to a surface apply.
#[derive(Debug, Clone, Copy, PartialEq, Eq, Structural)]
pub enum AndroidApplyEvent {
    /// The Gst thread could not take the task.
    NotDispatched,
    /// The task starts; `stored` is the cached window at that moment.
    TaskRun { stored: Option<usize> },
    /// Setting the window on the sink returned.
    WindowApplied { ok: bool },
    /// The bind-path preroll loop returned.
    PrerollReturned { ok: bool },
}

/// What a surface apply asks the Gst thread to do next.
#[derive(Debug, Clone, Copy, PartialEq, Eq, Structural)]
pub enum AndroidApplyAction {
    /// Set this window (at the cached size) on the sink.
    ApplyWindow { handle: usize },
    /// Run the bind-path preroll loop with the overlay ready.
    RunPreroll,
    /// Nothing more.
    Finish,
}

/// The next phase of a surface apply and what to do in it.
#[derive(Debug, Clone, Copy, PartialEq, Eq, Structural)]
pub struct AndroidApplyStep {
    pub phase: AndroidApplyPhase,
    pub action: AndroidApplyAction,
}

/// The step that ends a surface apply.
pub open spec fn android_apply_done() -> AndroidApplyStep {
    AndroidApplyStep { phase: AndroidApplyPhase::Done, action: AndroidApplyAction::Finish }
}

/// The surface-apply protocol. A task that cannot be dispatched, stale work
/// (the generation moved on) and any report out of order free the apply slot
/// and end. Without a cached window the task unbinds and ends. A window is
/// set on the sink; success binds and runs the preroll loop, failure unbinds
/// and ends; a failed preroll loop unbinds. Every end frees the slot.
pub open spec fn android_apply_rule(
    s: AndroidOverlaySession,
    phase: AndroidApplyPhase,
    event: AndroidApplyEvent,
) -> (AndroidOverlaySession, AndroidApplyStep) {
    let released = AndroidOverlaySession { attach_in_flight: false, ..s };
    let unbound = AndroidOverlaySession { overlay_bound: false, attach_in_flight: false, ..s };
    match phase {
        AndroidApplyPhase::Scheduled { work_generation } => match event {
            AndroidApplyEvent::TaskRun { stored } => {
                if work_generation != s.overlay_generation {
                    (released, android_apply_done())
                } else {
                    match stored {
                        None => (unbound, android_apply_done()),
                        Some(handle) => (s, AndroidApplyStep {
                            phase: AndroidApplyPhase::Applying,
                            action: AndroidApplyAction::ApplyWindow { handle },
                        }),
                    }
                }
            },
            _ => (released, android_apply_done()),
        },
        AndroidApplyPhase::Applying => match event {
            AndroidApplyEvent::WindowApplied { ok } => {
                if ok {
                    (AndroidOverlaySession { overlay_bound: true, ..s }, AndroidApplyStep {
                        phase: AndroidApplyPhase::Prerolling,
                        action: AndroidApplyAction::RunPreroll,
                    })
                } else {
                    (unbound, android_apply_done())
                }
            },
            _ => (released, android_apply_done()),
        },
        AndroidApplyPhase::Prerolling => match event {
            AndroidApplyEvent::PrerollReturned { ok } => {
                if ok { (released, android_apply_done()) } else { (unbound, android_apply_done()) }
            },
            _ => (released, android_apply_done()),
        },
        AndroidApplyPhase::Done => (s, android_apply_done()),
    }
}

impl AndroidOverlaySession {
    /// One step of a scheduled surface apply: takes what the Gst thread
    /// reported in `phase` and says what to do next.
    pub fn apply_step(&mut self, phase: AndroidApplyPhase, event: AndroidApplyEvent) -> (step: AndroidApplyStep)
        ensures
            (*final(self), step) == android_apply_rule(*old(self), phase, event),
    {
        let done = AndroidApplyStep { phase: AndroidApplyPhase::Done, action: AndroidApplyAction::Finish };
        match phase {
            AndroidApplyPhase::Scheduled { work_generation } => match event {
                AndroidApplyEvent::TaskRun { stored } => {
                    match self.apply_target(work_generation, stored) {
                        Some(handle) => AndroidApplyStep {
                            phase: AndroidApplyPhase::Applying,
                            action: AndroidApplyAction::ApplyWindow { handle },
                        },
                        None => {
                            self.end_apply();
                            done
                        },
                    }
                },
                _ => {
                    self.end_apply();
                    done
                },
            },
            AndroidApplyPhase::Applying => match event {
                AndroidApplyEvent::WindowApplied { ok } => {
                    if ok {
                        self.set_bound(true);
                        AndroidApplyStep { phase: AndroidApplyPhase::Prerolling, action: AndroidApplyAction::RunPreroll }
                    } else {
                        self.set_bound(false);
                        self.end_apply();
                        done
                    }
                },
                _ => {
                    self.end_apply();
                    done
                },
            },
            AndroidApplyPhase::Prerolling => match event {
                AndroidApplyEvent::PrerollReturned { ok } => {
                    if !ok {
                        self.set_bound(false);
                    }
                    self.end_apply();
                    done
                },
                _ => {
                    self.end_apply();
                    done
                },
            },
            AndroidApplyPhase::Done => done,
        }
    }
}

impl OverlaySession for AndroidOverlaySession {
    open spec fn bound(&self) -> bool {
        self.overlay_bound
    }

    open spec fn load_gate(&self, surface_overlay_ready: bool) -> bool {
        surface_overlay_ready
    }

    open spec fn preroll_gate(&self, has_cached_handle: bool) -> bool {
        has_cached_handle && self.overlay_bound
    }

    open spec fn dims(&self) -> (i32, i32) {
        (self.last.width, self.last.height)
    }

    open spec fn keeps_dims(&self) -> bool {
        true
    }

    fn gate_ready_for_load(&self, surface_overlay_ready: bool) -> (r: bool) {
        surface_overlay_ready
    }

    fn is_bound(&self) -> (r: bool) {
        self.overlay_bound
    }

    fn overlay_ready_for_preroll(&self, has_cached_handle: bool) -> (r: bool) {
        has_cached_handle && self.is_bound()
    }

    fn mark_shell_rebuilt(&mut self)
        ensures
            *final(self) == (AndroidOverlaySession {
                overlay_bound: false,
                overlay_generation: next_generation(old(self).overlay_generation),
                ..*old(self)
            }),
    {
        self.bump_overlay_generation();
        self.set_bound(false);
    }

    fn set_cached_dimensions(&mut self, width: i32, height: i32)
        ensures
            final(self).dims() == updated_dims(old(self).dims(), width, height),
            final(self).overlay_bound == old(self).overlay_bound,
            final(self).overlay_generation == old(self).overlay_generation,
            final(self).attach_in_flight == old(self).attach_in_flight,
    {
        self.last.update(width, height);
    }

    fn cached_dimensions(&self) -> (r: (i32, i32)) {
        (self.last.width, self.last.height)
    }
}

} // verus!
