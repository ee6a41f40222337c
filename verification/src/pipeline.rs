//! Plain-value model of the pipeline: element state, source kind, capabilities
//! and the snapshot used by preroll decisions.

use vstd::prelude::*;

verus! {

/// Element state of the pipeline, as GStreamer reports it (`VoidPending`
/// stands for "no pending transition").
#[derive(Debug, Clone, Copy, PartialEq, Eq, Structural)]
pub enum PipelineState {
    VoidPending,
    Null,
    Ready,
    Paused,
    Playing,
}

/// Pipeline state snapshot for pure preroll decisions.
#[derive(Debug, Clone, Copy, PartialEq, Eq, Structural)]
pub struct PipelineSnapshot {
    pub current: PipelineState,
    pub pending: PipelineState,
    pub has_pending_media: bool,
}


/// The platform the player is built for; decisions that differ per target take
/// it as a value.
#[derive(Debug, Clone, Copy, PartialEq, Eq, Structural)]
pub enum TargetPlatform {
    Android,
    Ios,
    Macos,
    Windows,
    Linux,
}

/// Platforms that render through a Flutter external texture fed by an
/// `appsink`, with no native overlay to bind.
pub open spec fn is_texture_platform(p: TargetPlatform) -> bool {
    p != TargetPlatform::Android
}


/// Media source kind: URI playbin or Flutter asset AppSrc.
#[derive(Debug, Clone, Copy, PartialEq, Eq, Structural)]
pub enum SourceKind {
    /// Network/file URI (playbin3).
    Uri,
    /// Flutter bundle asset (AppSrc).
    Asset,
}

/// Features available on the active pipeline shell.
#[derive(Debug, Clone, Copy, PartialEq, Eq, Structural)]
pub struct PipelineCapabilities {
    /// Whether seeking is supported.
    pub seek: bool,
    /// Whether audio/subtitle track selection is supported.
    pub tracks: bool,
    /// Whether videoflip orientation is supported.
    pub orientation: bool,
}

/// Capabilities by source kind: a playbin supports everything, an AppSrc
/// asset pipeline nothing.
pub open spec fn capabilities_of(kind: SourceKind) -> PipelineCapabilities {
    let all = kind == SourceKind::Uri;
    PipelineCapabilities { seek: all, tracks: all, orientation: all }
}

impl PipelineCapabilities {
    /// Full capabilities for `playbin3` URI pipelines.
    pub fn playbin() -> (c: Self)
        ensures
            c == capabilities_of(SourceKind::Uri),
    {
        PipelineCapabilities { seek: true, tracks: true, orientation: true }
    }

    /// Limited capabilities for AppSrc asset pipelines (no seek/tracks/rotation).
    pub fn appsrc() -> (c: Self)
        ensures
            c == capabilities_of(SourceKind::Asset),
    {
        PipelineCapabilities { seek: false, tracks: false, orientation: false }
    }

    /// Derives capabilities from the source kind.
    pub fn from_source_kind(kind: SourceKind) -> (c: Self)
        ensures
            c == capabilities_of(kind),
    {
        match kind {
            SourceKind::Uri => Self::playbin(),
            SourceKind::Asset => Self::appsrc(),
        }
    }
}

/// The media side of a pipeline shell: what it plays and from where. The
/// GStreamer objects live beside it in the application; `uri` mirrors the
/// playbin `uri` property, which only [`PipelineShell::set_uri`] writes.
#[derive(Debug, Clone)]
pub struct PipelineShell {
    pub kind: SourceKind,
    pub is_playbin: bool,
    pub asset_key: Option<String>,
    pub uri: Option<String>,
}

/// `o` holds a string with at least one character.
pub open spec fn non_empty(o: Option<String>) -> bool {
    o is Some && o->0@.len() > 0
}

/// A shell has media to preroll when its URI (playbin) or asset key (AppSrc)
/// is set and non-empty.
pub open spec fn shell_has_media(s: PipelineShell) -> bool {
    match s.kind {
        SourceKind::Uri => non_empty(s.uri),
        SourceKind::Asset => non_empty(s.asset_key),
    }
}

fn option_non_empty(o: &Option<String>) -> (r: bool)
    ensures
        r == non_empty(*o),
{
    match o {
        Some(s) => !s.as_str().is_empty(),
        None => false,
    }
}

impl PipelineShell {
    /// An empty playbin shell (no URI yet).
    pub fn new_uri() -> (s: Self)
        ensures
            s.kind == SourceKind::Uri,
            s.is_playbin,
            s.asset_key is None,
            s.uri is None,
    {
        PipelineShell { kind: SourceKind::Uri, is_playbin: true, asset_key: None, uri: None }
    }

    /// An AppSrc shell for `asset_key`.
    pub fn new_asset(asset_key: Option<String>) -> (s: Self)
        ensures
            s.kind == SourceKind::Asset,
            !s.is_playbin,
            s.asset_key == asset_key,
            s.uri is None,
    {
        PipelineShell { kind: SourceKind::Asset, is_playbin: false, asset_key, uri: None }
    }

    pub fn source_kind(&self) -> (k: SourceKind)
        ensures
            k == self.kind,
    {
        self.kind
    }

    pub fn is_uri(&self) -> (r: bool)
        ensures
            r == (self.kind == SourceKind::Uri),
    {
        match self.kind {
            SourceKind::Uri => true,
            SourceKind::Asset => false,
        }
    }

    pub fn asset_key(&self) -> (k: Option<&str>)
        ensures
            k is Some == self.asset_key is Some,
            k is Some ==> k->0@ == self.asset_key->0@,
    {
        match &self.asset_key {
            Some(key) => Some(key.as_str()),
            None => None,
        }
    }

    pub fn capabilities(&self) -> (c: PipelineCapabilities)
        ensures
            c == capabilities_of(self.kind),
    {
        PipelineCapabilities::from_source_kind(self.kind)
    }

    /// Whether the shell has media ready for preroll; an empty playbin returns
    /// `false`, so an early overlay bind does not preroll nothing.
    pub fn has_pending_media(&self) -> (r: bool)
        ensures
            r == shell_has_media(*self),
    {
        match self.kind {
            SourceKind::Uri => option_non_empty(&self.uri),
            SourceKind::Asset => option_non_empty(&self.asset_key),
        }
    }

    /// The preroll snapshot for the element states the pipeline reports.
    pub fn snapshot(&self, current: PipelineState, pending: PipelineState) -> (s: PipelineSnapshot)
        ensures
            s.current == current,
            s.pending == pending,
            s.has_pending_media == shell_has_media(*self),
    {
        PipelineSnapshot { current, pending, has_pending_media: self.has_pending_media() }
    }

    /// Records the URI set on the playbin.
    pub fn set_uri(&mut self, uri: String)
        ensures
            final(self).uri == Some(uri),
            final(self).kind == old(self).kind,
            final(self).is_playbin == old(self).is_playbin,
            final(self).asset_key == old(self).asset_key,
    {
        self.uri = Some(uri);
    }

    /// Rotating a playing playbin pauses it around the change and resumes it
    /// afterwards.
    pub fn rotation_needs_pause(&self, current: PipelineState) -> (r: bool)
        ensures
            r == (current == PipelineState::Playing && self.is_playbin),
    {
        current == PipelineState::Playing && self.is_playbin
    }
}

/// Where a rotation is applied: on the playbin's video filter, on the AppSrc
/// pipeline's `videoflip` (flushed when rotation goes back to 0 so the
/// identity takes effect at once), or nowhere (no flip element).
#[derive(Debug, Clone, Copy, PartialEq, Eq, Structural)]
pub enum RotationTarget {
    Playbin,
    Flip { flush: bool },
    Nothing,
}

pub open spec fn rotation_target_of(is_playbin: bool, has_orientation_filter: bool, rotate_degrees: i32) -> RotationTarget {
    if is_playbin {
        RotationTarget::Playbin
    } else if has_orientation_filter {
        RotationTarget::Flip { flush: rotate_degrees == 0 }
    } else {
        RotationTarget::Nothing
    }
}

impl PipelineShell {
    /// Where a rotation to `rotate_degrees` is applied.
    pub fn rotation_target(&self, has_orientation_filter: bool, rotate_degrees: i32) -> (r: RotationTarget)
        ensures
            r == rotation_target_of(self.is_playbin, has_orientation_filter, rotate_degrees),
    {
        if self.is_playbin {
            RotationTarget::Playbin
        } else if has_orientation_filter {
            RotationTarget::Flip { flush: rotate_degrees == 0 }
        } else {
            RotationTarget::Nothing
        }
    }
}

/// Loading a source into a shell of `current` kind: a URI reuses a playbin
/// shell; an asset always gets a fresh shell (a fresh decodebin).
pub open spec fn switch_rebuilds(current: SourceKind, target: SourceKind) -> bool {
    target == SourceKind::Asset || current != SourceKind::Uri
}

pub fn switch_rebuilds_shell(current: SourceKind, target: SourceKind) -> (r: bool)
    ensures
        r == switch_rebuilds(current, target),
{
    match target {
        SourceKind::Asset => true,
        SourceKind::Uri => match current {
            SourceKind::Uri => false,
            SourceKind::Asset => true,
        },
    }
}

/// What `set_state` answered: a failure, an immediate success, or a change
/// still in progress (async or no-preroll).
#[derive(Debug, Clone, Copy, PartialEq, Eq, Structural)]
pub enum SetStateReply {
    Failed,
    Success,
    InProgress,
}

/// Why a synchronous state change failed.
#[derive(Debug, Clone, Copy, PartialEq, Eq, Structural)]
pub enum StateSyncError {
    SetStateFailed { target: PipelineState },
    GetStateFailed { target: PipelineState },
    NotReached { target: PipelineState, current: PipelineState },
}

/// The next step of a synchronous state change after `set_state`.
#[derive(Debug, Clone, Copy, PartialEq, Eq, Structural)]
pub enum StateSyncStep {
    Done,
    WaitForState,
    Failed(StateSyncError),
}

pub open spec fn after_set_state_spec(target: PipelineState, reply: SetStateReply) -> StateSyncStep {
    match reply {
        SetStateReply::Failed => StateSyncStep::Failed(StateSyncError::SetStateFailed { target }),
        SetStateReply::Success => StateSyncStep::Done,
        SetStateReply::InProgress => StateSyncStep::WaitForState,
    }
}

/// A failed `set_state` fails the change, an immediate success ends it, and
/// a change in progress is waited for.
pub fn after_set_state(target: PipelineState, reply: SetStateReply) -> (s: StateSyncStep)
    ensures
        s == after_set_state_spec(target, reply),
{
    match reply {
        SetStateReply::Failed => StateSyncStep::Failed(StateSyncError::SetStateFailed { target }),
        SetStateReply::Success => StateSyncStep::Done,
        SetStateReply::InProgress => StateSyncStep::WaitForState,
    }
}

pub open spec fn after_state_wait_spec(target: PipelineState, query_ok: bool, current: PipelineState) -> Result<(), StateSyncError> {
    if !query_ok {
        Err(StateSyncError::GetStateFailed { target })
    } else if current != target {
        Err(StateSyncError::NotReached { target, current })
    } else {
        Ok(())
    }
}

/// After waiting (with a timeout) for the change: a failed state query
/// fails it, and so does any state other than the target.
pub fn after_state_wait(target: PipelineState, query_ok: bool, current: PipelineState) -> (r: Result<(), StateSyncError>)
    ensures
        r == after_state_wait_spec(target, query_ok, current),
{
    if !query_ok {
        return Err(StateSyncError::GetStateFailed { target });
    }
    if current != target {
        return Err(StateSyncError::NotReached { target, current });
    }
    Ok(())
}

/// A seek target in milliseconds: negative positions seek to the start.
pub fn seek_position_ms(position_ms: i64) -> (r: u64)
    ensures
        r == (if position_ms < 0 { 0 } else { position_ms as int }),
{
    if position_ms < 0 { 0 } else { position_ms as u64 }
}

} // verus!
