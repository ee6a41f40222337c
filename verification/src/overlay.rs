//! Overlay sessions: per-platform bookkeeping of the native overlay handle,
//! whether GStreamer has bound it, and the gates that let load and bind paths
//! preroll.

use vstd::prelude::*;

use crate::pipeline::{PipelineSnapshot, TargetPlatform};
use crate::preroll::{decide_preroll_action, preroll_action, PrerollAction};

verus! {

/// Dimensions after a layout report: only positive sizes replace the cached ones.
pub open spec fn updated_dims(old: (i32, i32), width: i32, height: i32) -> (i32, i32) {
    (if width > 0 { width } else { old.0 }, if height > 0 { height } else { old.1 })
}

/// Cached render rectangle size.
#[derive(Debug, Clone, Copy, PartialEq, Eq, Structural)]
pub struct CachedDimensions {
    pub width: i32,
    pub height: i32,
}

impl CachedDimensions {
    pub fn new() -> (d: Self)
        ensures
            d.width == 0,
            d.height == 0,
    {
        CachedDimensions { width: 0, height: 0 }
    }

    /// Caches a reported size; `<= 0` leaves that side unchanged.
    pub fn update(&mut self, width: i32, height: i32)
        ensures
            (final(self).width, final(self).height) == updated_dims((old(self).width, old(self).height), width, height),
    {
        if width > 0 {
            self.width = width;
        }
        if height > 0 {
            self.height = height;
        }
    }
}

/// The handle a native host reports, as the cached slot holds it: `0` means
/// destroyed.
pub open spec fn cached_slot(handle: usize) -> Option<usize> {
    if handle == 0 { None } else { Some(handle) }
}

/// Caches or clears the native overlay handle (`0` clears).
pub fn cache_overlay_handle(stored: &mut Option<usize>, handle: usize)
    ensures
        *final(stored) == cached_slot(handle),
{
    if handle == 0 {
        *stored = None;
    } else {
        *stored = Some(handle);
    }
}

/// Per-platform overlay session policy.
pub trait OverlaySession {
    /// GStreamer has the overlay bound.
    spec fn bound(&self) -> bool;

    /// The load-path gate for a surface readiness.
    spec fn load_gate(&self, surface_overlay_ready: bool) -> bool;

    /// The bind-path preroll gate for a handle-cache state.
    spec fn preroll_gate(&self, has_cached_handle: bool) -> bool;

    /// The cached render rectangle size.
    spec fn dims(&self) -> (i32, i32);

    /// Whether the session keeps layout sizes (a test double does not).
    spec fn keeps_dims(&self) -> bool;

    /// Whether the load path may enter preroll gating.
    fn gate_ready_for_load(&self, surface_overlay_ready: bool) -> (r: bool)
        ensures
            r == self.load_gate(surface_overlay_ready);

    /// Whether the overlay is bound on the GStreamer side.
    fn is_bound(&self) -> (r: bool)
        ensures
            r == self.bound();

    /// Whether bind-path preroll may proceed.
    fn overlay_ready_for_preroll(&self, has_cached_handle: bool) -> (r: bool)
        ensures
            r == self.preroll_gate(has_cached_handle);

    /// Invalidates overlay state after a pipeline shell rebuild.
    fn mark_shell_rebuilt(&mut self)
        ensures
            !final(self).bound();

    /// Caches the most recent layout size (positive sides only); the bind
    /// state is unchanged.
    fn set_cached_dimensions(&mut self, width: i32, height: i32)
        ensures
            final(self).dims() == (if old(self).keeps_dims() {
                updated_dims(old(self).dims(), width, height)
            } else {
                old(self).dims()
            }),
            final(self).keeps_dims() == old(self).keeps_dims(),
            final(self).bound() == old(self).bound();

    /// The cached render rectangle size.
    fn cached_dimensions(&self) -> (r: (i32, i32))
        ensures
            r == self.dims();
}

/// Test double for overlay session policy.
pub struct FakeOverlaySession {
    /// Simulated GStreamer bind state.
    pub bound: bool,
    /// Whether the load gate follows `surface_overlay_ready` (else it is closed).
    pub gate_ready: bool,
    /// Whether preroll is allowed (it also requires a bind).
    pub preroll_ready: bool,
}

impl FakeOverlaySession {
    pub fn new(gate_ready: bool, preroll_ready: bool) -> (s: Self)
        ensures
            !s.bound,
            s.gate_ready == gate_ready,
            s.preroll_ready == preroll_ready,
    {
        FakeOverlaySession { bound: false, gate_ready, preroll_ready }
    }
}

impl OverlaySession for FakeOverlaySession {
    open spec fn bound(&self) -> bool {
        self.bound
    }

    open spec fn load_gate(&self, surface_overlay_ready: bool) -> bool {
        self.gate_ready && surface_overlay_ready
    }

    open spec fn preroll_gate(&self, has_cached_handle: bool) -> bool {
        has_cached_handle && self.preroll_ready && self.bound
    }

    open spec fn dims(&self) -> (i32, i32) {
        (0, 0)
    }

    open spec fn keeps_dims(&self) -> bool {
        false
    }

    fn gate_ready_for_load(&self, surface_overlay_ready: bool) -> (r: bool) {
        if self.gate_ready {
            surface_overlay_ready
        } else {
            false
        }
    }

    fn is_bound(&self) -> (r: bool) {
        self.bound
    }

    fn overlay_ready_for_preroll(&self, has_cached_handle: bool) -> (r: bool) {
        has_cached_handle && self.preroll_ready && self.is_bound()
    }

    fn mark_shell_rebuilt(&mut self) {
        self.bound = false;
    }

    fn set_cached_dimensions(&mut self, width: i32, height: i32) {
    }

    fn cached_dimensions(&self) -> (r: (i32, i32)) {
        (0, 0)
    }
}

/// Desktop overlay session: Windows/Linux window-handle overlay, or the macOS
/// texture stub whose gates always report ready. It has one owner and no
/// copies, so its bind state is the same for every holder of the surface.
#[derive(Debug, PartialEq, Eq, Structural)]
pub struct DesktopOverlaySession {
    pub overlay_bound: bool,
    pub texture: bool,
    pub last: CachedDimensions,
}

impl DesktopOverlaySession {
    /// An unbound Windows/Linux session.
    pub fn new() -> (s: Self)
        ensures
            !s.overlay_bound,
            !s.texture,
            s.dims() == (0i32, 0i32),
    {
        DesktopOverlaySession { overlay_bound: false, texture: false, last: CachedDimensions::new() }
    }

    /// An unbound macOS session (Flutter texture rendering).
    pub fn new_macos() -> (s: Self)
        ensures
            !s.overlay_bound,
            s.texture,
            s.dims() == (0i32, 0i32),
    {
        DesktopOverlaySession { overlay_bound: false, texture: true, last: CachedDimensions::new() }
    }

    /// The session for a desktop target.
    pub fn for_platform(platform: TargetPlatform) -> (s: Self)
        ensures
            !s.overlay_bound,
            s.texture == (platform == TargetPlatform::Macos),
            s.dims() == (0i32, 0i32),
    {
        match platform {
            TargetPlatform::Macos => Self::new_macos(),
            _ => Self::new(),
        }
    }

    /// Sets the GStreamer overlay bound flag.
    pub fn set_bound(&mut self, bound: bool)
        ensures
            *final(self) == (DesktopOverlaySession { overlay_bound: bound, ..*old(self) }),
    {
        self.overlay_bound = bound;
    }

    /// Records a window handle applied to the sink: cached (`0` clears) and
    /// bound exactly when non-zero.
    pub fn apply_window_handle(&mut self, stored: &mut Option<usize>, window_handle: i64)
        ensures
            *final(stored) == cached_slot(window_handle as usize),
            final(self).overlay_bound == (window_handle != 0),
            final(self).texture == old(self).texture,
            final(self).last == old(self).last,
    {
        cache_overlay_handle(stored, window_handle as usize);
        self.set_bound(window_handle != 0);
    }

    /// After the cached handle was re-applied to a new sink: bound exactly
    /// when a handle is cached.
    pub fn after_rebind(&mut self, stored: &Option<usize>)
        ensures
            *final(self) == (DesktopOverlaySession { overlay_bound: stored is Some, ..*old(self) }),
    {
        self.set_bound(stored.is_some());
    }

    /// A host notification: caches size and handle; a destroyed host (`0`)
    /// also unbinds.
    pub fn cache_notify(&mut self, stored: &mut Option<usize>, handle: i64, width: i32, height: i32)
        ensures
            final(self).dims() == updated_dims(old(self).dims(), width, height),
            *final(stored) == (if handle == 0 { None } else { Some(handle as usize) }),
            final(self).overlay_bound == (old(self).overlay_bound && handle != 0),
            final(self).texture == old(self).texture,
    {
        self.set_cached_dimensions(width, height);
        if handle == 0 {
            *stored = None;
            self.set_bound(false);
        } else {
            *stored = Some(handle as usize);
        }
    }
}

impl OverlaySession for DesktopOverlaySession {
    open spec fn bound(&self) -> bool {
        self.overlay_bound
    }

    /// macOS always passes; Windows/Linux preroll only once the overlay is bound.
    open spec fn load_gate(&self, surface_overlay_ready: bool) -> bool {
        self.texture || surface_overlay_ready
    }

    open spec fn preroll_gate(&self, has_cached_handle: bool) -> bool {
        self.texture || (has_cached_handle && self.overlay_bound)
    }

    open spec fn dims(&self) -> (i32, i32) {
        (self.last.width, self.last.height)
    }

    open spec fn keeps_dims(&self) -> bool {
        true
    }

    fn gate_ready_for_load(&self, surface_overlay_ready: bool) -> (r: bool) {
        if self.texture {
            true
        } else {
            surface_overlay_ready
        }
    }

    fn is_bound(&self) -> (r: bool) {
        self.overlay_bound
    }

    fn overlay_ready_for_preroll(&self, has_cached_handle: bool) -> (r: bool) {
        if self.texture {
            true
        } else {
            has_cached_handle && self.is_bound()
        }
    }

    fn mark_shell_rebuilt(&mut self)
        ensures
            *final(self) == (DesktopOverlaySession { overlay_bound: false, ..*old(self) }),
    {
        self.set_bound(false);
    }

    fn set_cached_dimensions(&mut self, width: i32, height: i32)
        ensures
            final(self).dims() == updated_dims(old(self).dims(), width, height),
            final(self).overlay_bound == old(self).overlay_bound,
            final(self).texture == old(self).texture,
    {
        self.last.update(width, height);
    }

    fn cached_dimensions(&self) -> (r: (i32, i32)) {
        (self.last.width, self.last.height)
    }
}

/// How a native window handle reaches the video sink: apply it, or clear the
/// sink's handle (`0`).
#[derive(Debug, Clone, Copy, PartialEq, Eq, Structural)]
pub enum OverlayHandleOp {
    Apply(usize),
    Clear,
}

/// What a layout report does on a desktop overlay: set the render rectangle,
/// re-expose the bound overlay, or nothing.
#[derive(Debug, Clone, Copy, PartialEq, Eq, Structural)]
pub enum RectangleSync {
    ApplyRectangle { width: i32, height: i32 },
    Expose,
    Nothing,
}

/// The sink operation for a handle: non-zero sets, `0` clears.
pub open spec fn handle_op_for(handle: usize) -> OverlayHandleOp {
    if handle == 0 { OverlayHandleOp::Clear } else { OverlayHandleOp::Apply(handle) }
}

/// A positive size sets the rectangle; otherwise a cached handle is re-exposed.
pub open spec fn rectangle_sync_for(has_cached_handle: bool, width: i32, height: i32) -> RectangleSync {
    if width > 0 && height > 0 {
        RectangleSync::ApplyRectangle { width, height }
    } else if has_cached_handle {
        RectangleSync::Expose
    } else {
        RectangleSync::Nothing
    }
}

/// Windows / Linux window-handle overlay operations (stateless; the handle
/// cache lives in the surface).
#[derive(Debug, Clone, Copy, PartialEq, Eq, Structural)]
pub struct DesktopOverlayBackend;

impl DesktopOverlayBackend {
    /// Caches (`0` clears) the handle and says what the sink must do with it.
    pub fn apply_overlay_handle(stored: &mut Option<usize>, handle: usize) -> (op: OverlayHandleOp)
        ensures
            *final(stored) == cached_slot(handle),
            op == handle_op_for(handle),
    {
        cache_overlay_handle(stored, handle);
        if handle == 0 {
            OverlayHandleOp::Clear
        } else {
            OverlayHandleOp::Apply(handle)
        }
    }

    /// After a shell rebuild, the cached handle (if any) is applied again to
    /// the new sink; the cache is unchanged.
    pub fn rebind_cached_overlay(stored: &Option<usize>) -> (op: Option<OverlayHandleOp>)
        ensures
            op == (match *stored {
                Some(h) => Some(handle_op_for(h)),
                None => None,
            }),
    {
        match *stored {
            Some(h) => {
                if h == 0 {
                    Some(OverlayHandleOp::Clear)
                } else {
                    Some(OverlayHandleOp::Apply(h))
                }
            },
            None => None,
        }
    }

    /// The render-rectangle work for a layout report.
    pub fn schedule_rectangle_sync(has_cached_handle: bool, width: i32, height: i32) -> (r: RectangleSync)
        ensures
            r == rectangle_sync_for(has_cached_handle, width, height),
    {
        if width > 0 && height > 0 {
            RectangleSync::ApplyRectangle { width, height }
        } else if has_cached_handle {
            RectangleSync::Expose
        } else {
            RectangleSync::Nothing
        }
    }
}

/// A render rectangle size.
#[derive(Debug, Clone, Copy, PartialEq, Eq, Structural)]
pub struct RenderRectangle {
    pub width: i32,
    pub height: i32,
}

/// What the macOS overlay sink gets: its handle cleared when none is cached,
/// else the cached handle and, for a positive size, a render rectangle.
#[derive(Debug, Clone, Copy, PartialEq, Eq, Structural)]
pub enum MacosOverlayPlan {
    ClearHandle,
    SetHandle { handle: usize, rectangle: Option<RenderRectangle> },
}

pub open spec fn macos_plan_for(stored: Option<usize>, width: i32, height: i32) -> MacosOverlayPlan {
    match stored {
        None => MacosOverlayPlan::ClearHandle,
        Some(handle) => MacosOverlayPlan::SetHandle {
            handle,
            rectangle: if width > 0 && height > 0 { Some(RenderRectangle { width, height }) } else { None },
        },
    }
}

/// macOS `osxvideosink` overlay operations (stateless).
#[derive(Debug, Clone, Copy, PartialEq, Eq, Structural)]
pub struct MacosOverlayBackend;

impl MacosOverlayBackend {
    /// The sink operations for the cached handle and a layout size.
    pub fn apply_gstreamer(stored: &Option<usize>, width: i32, height: i32) -> (p: MacosOverlayPlan)
        ensures
            p == macos_plan_for(*stored, width, height),
    {
        match *stored {
            None => MacosOverlayPlan::ClearHandle,
            Some(handle) => MacosOverlayPlan::SetHandle {
                handle,
                rectangle: if width > 0 && height > 0 { Some(RenderRectangle { width, height }) } else { None },
            },
        }
    }

    /// Whether the overlay handle is cached yet (playback may fail until the
    /// platform view binds one).
    pub fn ensure_overlay_ready(stored: &Option<usize>) -> (r: bool)
        ensures
            r == stored is Some,
    {
        stored.is_some()
    }
}

/// The platform video sink element of a target.
pub open spec fn sink_factory_for(platform: TargetPlatform) -> Seq<char> {
    match platform {
        TargetPlatform::Windows => "d3d11videosink"@,
        TargetPlatform::Macos => "osxvideosink"@,
        TargetPlatform::Ios => "avsamplebufferlayersink"@,
        _ => "glimagesink"@,
    }
}

pub fn video_sink_factory_name(platform: TargetPlatform) -> (s: &'static str)
    ensures
        s@ == sink_factory_for(platform),
{
    match platform {
        TargetPlatform::Windows => "d3d11videosink",
        TargetPlatform::Macos => "osxvideosink",
        TargetPlatform::Ios => "avsamplebufferlayersink",
        _ => "glimagesink",
    }
}

/// The bus sync handler's answer to a message.
#[derive(Debug, Clone, Copy, PartialEq, Eq, Structural)]
pub enum OverlaySyncReply {
    /// Let the message through.
    Pass,
    /// Bind this handle to the message's overlay and drop the message.
    BindAndDrop(usize),
}

/// Only `prepare-window-handle` with a cached handle is answered, and only by
/// window overlays: iOS attaches its layer asynchronously, macOS renders
/// through a texture.
pub open spec fn overlay_sync_reply_for(
    platform: TargetPlatform,
    is_prepare_window_handle: bool,
    cached_handle: Option<usize>,
) -> OverlaySyncReply {
    if !is_prepare_window_handle || cached_handle is None || platform == TargetPlatform::Ios
        || platform == TargetPlatform::Macos {
        OverlaySyncReply::Pass
    } else {
        OverlaySyncReply::BindAndDrop(cached_handle->0)
    }
}

pub fn bus_sync_reply_for_overlay_message(
    platform: TargetPlatform,
    is_prepare_window_handle: bool,
    cached_handle: Option<usize>,
) -> (r: OverlaySyncReply)
    ensures
        r == overlay_sync_reply_for(platform, is_prepare_window_handle, cached_handle),
{
    if !is_prepare_window_handle {
        return OverlaySyncReply::Pass;
    }
    let handle = match cached_handle {
        Some(h) => h,
        None => {
            return OverlaySyncReply::Pass;
        },
    };
    match platform {
        TargetPlatform::Ios | TargetPlatform::Macos => OverlaySyncReply::Pass,
        _ => OverlaySyncReply::BindAndDrop(handle),
    }
}

/// Cached native overlay handle plus the platform session it delegates to.
///
/// A session is neither cloned nor copied: every part of the player that
/// reaches the overlay shares the one surface (behind a single lock), so all
/// of them see the same bind state.
pub struct VideoSurface<S> {
    pub stored: Option<usize>,
    pub session: S,
}

impl<S: OverlaySession> VideoSurface<S> {
    pub fn new(stored: Option<usize>, session: S) -> (v: Self)
        ensures
            v.stored == stored,
            v.session == session,
    {
        VideoSurface { stored, session }
    }

    pub fn has_cached_handle(&self) -> (r: bool)
        ensures
            r == self.stored is Some,
    {
        self.stored.is_some()
    }

    pub fn is_overlay_bound_on_gst(&self) -> (r: bool)
        ensures
            r == self.session.bound(),
    {
        self.session.is_bound()
    }

    /// The session's bind-path gate, for the current handle cache.
    pub fn overlay_ready_for_preroll(&self) -> (r: bool)
        ensures
            r == self.session.preroll_gate(self.stored is Some),
    {
        self.session.overlay_ready_for_preroll(self.has_cached_handle())
    }

    /// Caches or clears (`0`) the native handle.
    pub fn cache_handle(&mut self, handle: usize)
        ensures
            final(self).stored == cached_slot(handle),
            final(self).session == old(self).session,
    {
        cache_overlay_handle(&mut self.stored, handle);
    }

    pub fn mark_shell_rebuilt(&mut self)
        ensures
            !final(self).session.bound(),
            final(self).stored == old(self).stored,
    {
        self.session.mark_shell_rebuilt();
    }

    pub fn set_cached_dimensions(&mut self, width: i32, height: i32)
        ensures
            final(self).stored == old(self).stored,
            final(self).session.dims() == (if old(self).session.keeps_dims() {
                updated_dims(old(self).session.dims(), width, height)
            } else {
                old(self).session.dims()
            }),
            final(self).session.bound() == old(self).session.bound(),
    {
        self.session.set_cached_dimensions(width, height);
    }

    pub fn cached_dimensions(&self) -> (r: (i32, i32))
        ensures
            r == self.session.dims(),
    {
        self.session.cached_dimensions()
    }

    /// The load-path step after a load or switch: the session's load gate,
    /// fed the surface's bind-path readiness, decides through the target's
    /// load policy.
    pub fn load_preroll_step(&self, platform: TargetPlatform, snapshot: PipelineSnapshot) -> (r: LoadPrerollStep)
        ensures
            ({
                let gate = self.session.load_gate(self.session.preroll_gate(self.stored is Some));
                r == (match platform {
                    TargetPlatform::Android => load_step_for(preroll_action(snapshot, false, gate), true),
                    TargetPlatform::Ios => if gate {
                        LoadPrerollStep::LogAttachDeferred
                    } else {
                        LoadPrerollStep::LogDeferred
                    },
                    _ => load_step_for(preroll_action(snapshot, false, gate), false),
                })
            }),
    {
        let gate_ready = self.session.gate_ready_for_load(self.overlay_ready_for_preroll());
        match platform {
            TargetPlatform::Android => android_apply_load_preroll(snapshot, gate_ready),
            TargetPlatform::Ios => ios_apply_load_preroll(gate_ready),
            _ => desktop_apply_load_preroll(snapshot, gate_ready),
        }
    }
}

/// What a load path does after the overlay gate: preroll to Paused, report that
/// preroll waits for the overlay, report that the iOS layer attach belongs to
/// the session, or nothing.
#[derive(Debug, Clone, Copy, PartialEq, Eq, Structural)]
pub enum LoadPrerollStep {
    PausePreroll,
    LogDeferred,
    LogAttachDeferred,
    Nothing,
}

/// The load step for a rule decision: a preroll pauses, a deferral is logged
/// where `log_defer` (Android), anything else does nothing.
pub open spec fn load_step_for(a: PrerollAction, log_defer: bool) -> LoadPrerollStep {
    if a == PrerollAction::PausePreroll {
        LoadPrerollStep::PausePreroll
    } else if a == PrerollAction::Defer && log_defer {
        LoadPrerollStep::LogDeferred
    } else {
        LoadPrerollStep::Nothing
    }
}

fn load_step(a: PrerollAction, log_defer: bool) -> (r: LoadPrerollStep)
    ensures
        r == load_step_for(a, log_defer),
{
    match a {
        PrerollAction::PausePreroll => LoadPrerollStep::PausePreroll,
        PrerollAction::Defer => if log_defer { LoadPrerollStep::LogDeferred } else { LoadPrerollStep::Nothing },
        _ => LoadPrerollStep::Nothing,
    }
}

/// Android load path: the rule with `want_play = false` behind the overlay gate; a
/// wait for the overlay is reported.
pub fn android_apply_load_preroll(snapshot: PipelineSnapshot, gate_ready: bool) -> (r: LoadPrerollStep)
    ensures
        r == load_step_for(preroll_action(snapshot, false, gate_ready), true),
{
    load_step(decide_preroll_action(snapshot, false, gate_ready), true)
}

/// iOS load path: never prerolls; the CALayer attach belongs to the session.
pub fn ios_apply_load_preroll(gate_ready: bool) -> (r: LoadPrerollStep)
    ensures
        r == (if gate_ready { LoadPrerollStep::LogAttachDeferred } else { LoadPrerollStep::LogDeferred }),
{
    if gate_ready {
        LoadPrerollStep::LogAttachDeferred
    } else {
        LoadPrerollStep::LogDeferred
    }
}

/// Desktop/macOS load path: sync-pause to Paused when the rule says so.
pub fn desktop_apply_load_preroll(snapshot: PipelineSnapshot, gate_ready: bool) -> (r: LoadPrerollStep)
    ensures
        r == load_step_for(preroll_action(snapshot, false, gate_ready), false),
{
    load_step(decide_preroll_action(snapshot, false, gate_ready), false)
}

/// Platform policy for URI/asset load preroll.
pub trait LoadPrerollPolicy {
    spec fn gate(&self, surface_overlay_ready: bool) -> bool;

    fn gate_ready_for_load(&self, surface_overlay_ready: bool) -> (r: bool)
        ensures
            r == self.gate(surface_overlay_ready);

    /// The load step for this platform, given the pipeline snapshot and the
    /// surface readiness.
    fn load_preroll_step(&self, snapshot: PipelineSnapshot, surface_overlay_ready: bool) -> LoadPrerollStep;
}

/// Android: pass-through overlay readiness; may pause preroll.
pub struct AndroidLoadPrerollPolicy;

impl LoadPrerollPolicy for AndroidLoadPrerollPolicy {
    open spec fn gate(&self, surface_overlay_ready: bool) -> bool {
        surface_overlay_ready
    }

    fn gate_ready_for_load(&self, surface_overlay_ready: bool) -> (r: bool) {
        surface_overlay_ready
    }

    fn load_preroll_step(&self, snapshot: PipelineSnapshot, surface_overlay_ready: bool) -> (r: LoadPrerollStep)
        ensures
            r == load_step_for(preroll_action(snapshot, false, surface_overlay_ready), true),
    {
        android_apply_load_preroll(snapshot, self.gate_ready_for_load(surface_overlay_ready))
    }
}

/// iOS: load never prerolls on switch; the attach is deferred to the session.
pub struct IosLoadPrerollPolicy;

impl LoadPrerollPolicy for IosLoadPrerollPolicy {
    open spec fn gate(&self, surface_overlay_ready: bool) -> bool {
        false
    }

    fn gate_ready_for_load(&self, surface_overlay_ready: bool) -> (r: bool) {
        false
    }

    fn load_preroll_step(&self, snapshot: PipelineSnapshot, surface_overlay_ready: bool) -> (r: LoadPrerollStep)
        ensures
            r == (if surface_overlay_ready {
                LoadPrerollStep::LogAttachDeferred
            } else {
                LoadPrerollStep::LogDeferred
            }),
    {
        ios_apply_load_preroll(surface_overlay_ready)
    }
}

/// Desktop/macOS: preroll when the handle is not cached yet.
pub struct DesktopLoadPrerollPolicy;

impl LoadPrerollPolicy for DesktopLoadPrerollPolicy {
    open spec fn gate(&self, surface_overlay_ready: bool) -> bool {
        !surface_overlay_ready
    }

    fn gate_ready_for_load(&self, surface_overlay_ready: bool) -> (r: bool) {
        !surface_overlay_ready
    }

    fn load_preroll_step(&self, snapshot: PipelineSnapshot, surface_overlay_ready: bool) -> (r: LoadPrerollStep)
        ensures
            r == load_step_for(preroll_action(snapshot, false, !surface_overlay_ready), false),
    {
        desktop_apply_load_preroll(snapshot, self.gate_ready_for_load(surface_overlay_ready))
    }
}

/// The load preroll policy of a target.
pub enum PlatformLoadPrerollPolicy {
    Android(AndroidLoadPrerollPolicy),
    Ios(IosLoadPrerollPolicy),
    Desktop(DesktopLoadPrerollPolicy),
}

/// Resolves the load preroll policy of a target.
pub fn platform_load_preroll_policy(platform: TargetPlatform) -> (p: PlatformLoadPrerollPolicy)
    ensures
        platform == TargetPlatform::Android <==> p is Android,
        platform == TargetPlatform::Ios <==> p is Ios,
        (platform != TargetPlatform::Android && platform != TargetPlatform::Ios) <==> p is Desktop,
{
    match platform {
        TargetPlatform::Android => PlatformLoadPrerollPolicy::Android(AndroidLoadPrerollPolicy),
        TargetPlatform::Ios => PlatformLoadPrerollPolicy::Ios(IosLoadPrerollPolicy),
        _ => PlatformLoadPrerollPolicy::Desktop(DesktopLoadPrerollPolicy),
    }
}

} // verus!
