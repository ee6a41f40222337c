//! Player-level decisions: the intent flags each API call updates, what a
//! load / play / seek / stop does on each platform, how a track request is
//! routed, and how the video sink's negotiated size is reported.

use vstd::prelude::*;

use crate::bus::PlayReplayContext;
use crate::events::{
    is_position_event, is_state_event, is_video_size_event, MediaTrack,
    PlayerEvent, PlayerState, TrackType,
};
use crate::pipeline::{is_texture_platform, PipelineCapabilities, TargetPlatform};
use crate::tracks::{read_cached_tracks, TrackCache};

verus! {

/// The intent flags a player keeps between API calls.
#[derive(Debug, Clone, Copy, PartialEq, Eq, Structural)]
pub struct EngineIntent {
    pub replay: PlayReplayContext,
    pub looping: bool,
    pub seekable: bool,
}

/// The events a seek reports: the new position, then Buffering while the
/// user wants playback.
pub open spec fn seek_events_ok(events: Seq<PlayerEvent>, position_ms: i64, desired_playing: bool) -> bool {
    &&& events.len() == (if desired_playing { 2int } else { 1int })
    &&& is_position_event(events[0], position_ms)
    &&& desired_playing ==> is_buffering_state_event(events[1])
}

/// A `StateChanged(Buffering)` event.
pub open spec fn is_buffering_state_event(e: PlayerEvent) -> bool {
    is_state_event(e, PlayerState::Buffering)
}

impl EngineIntent {
    /// A fresh player: not playing, not at the end, running, not looping,
    /// seekable.
    pub fn new() -> (s: Self)
        ensures
            !s.replay.desired_playing,
            !s.replay.at_eos,
            s.replay.running,
            !s.looping,
            s.seekable,
    {
        EngineIntent {
            replay: PlayReplayContext { desired_playing: false, at_eos: false, running: true },
            looping: false,
            seekable: true,
        }
    }

    /// A load: auto-play records the play intent; the new source's
    /// seekability replaces the old one.
    pub fn begin_load(&mut self, auto_play: bool, seekable: bool)
        ensures
            final(self).replay.desired_playing == (old(self).replay.desired_playing || auto_play),
            final(self).replay.at_eos == old(self).replay.at_eos,
            final(self).replay.running == old(self).replay.running,
            final(self).looping == old(self).looping,
            final(self).seekable == seekable,
    {
        if auto_play {
            self.replay.desired_playing = true;
        }
        self.seekable = seekable;
    }

    /// A play request records the play intent.
    pub fn begin_play(&mut self)
        ensures
            *final(self) == (EngineIntent {
                replay: PlayReplayContext { desired_playing: true, ..old(self).replay },
                ..*old(self)
            }),
    {
        self.replay.desired_playing = true;
    }

    /// A pause clears the play intent.
    pub fn pause(&mut self)
        ensures
            *final(self) == (EngineIntent {
                replay: PlayReplayContext { desired_playing: false, ..old(self).replay },
                ..*old(self)
            }),
    {
        self.replay.desired_playing = false;
    }

    /// A stop clears the play intent and the end-of-stream flag, and reports
    /// `Stopped`.
    pub fn stop(&mut self) -> (e: PlayerEvent)
        ensures
            *final(self) == (EngineIntent {
                replay: PlayReplayContext { desired_playing: false, at_eos: false, ..old(self).replay },
                ..*old(self)
            }),
            is_state_event(e, PlayerState::Stopped),
    {
        self.replay.desired_playing = false;
        self.replay.at_eos = false;
        PlayerEvent::state(PlayerState::Stopped)
    }

    /// A seek leaves the end of stream and reports the new position, then
    /// Buffering while the user wants playback.
    pub fn seek(&mut self, position_ms: i64) -> (events: Vec<PlayerEvent>)
        ensures
            *final(self) == (EngineIntent {
                replay: PlayReplayContext { at_eos: false, ..old(self).replay },
                ..*old(self)
            }),
            seek_events_ok(events@, position_ms, old(self).replay.desired_playing),
    {
        self.replay.at_eos = false;
        let mut events: Vec<PlayerEvent> = Vec::new();
        events.push(PlayerEvent::position(position_ms));
        if self.replay.desired_playing {
            events.push(PlayerEvent::state(PlayerState::Buffering));
        }
        events
    }

    /// Sets whether playback loops at the end of stream.
    pub fn set_looping(&mut self, looping: bool)
        ensures
            *final(self) == (EngineIntent { looping, ..*old(self) }),
    {
        self.looping = looping;
    }

    /// Tearing the player down: it stops running.
    pub fn shut_down(&mut self)
        ensures
            *final(self) == (EngineIntent {
                replay: PlayReplayContext { running: false, ..old(self).replay },
                ..*old(self)
            }),
    {
        self.replay.running = false;
    }
}

/// What a load does about auto-play once the new shell is installed.
#[derive(Debug, Clone, Copy, PartialEq, Eq, Structural)]
pub enum AutoPlayPlan {
    Idle,
    PlayNow,
    DeferUntilOverlay,
}

/// Texture platforms play at once; Android plays once its overlay may
/// preroll, and otherwise waits for the bind.
pub open spec fn autoplay_plan(platform: TargetPlatform, auto_play: bool, overlay_ready_for_preroll: bool) -> AutoPlayPlan {
    if !auto_play {
        AutoPlayPlan::Idle
    } else if is_texture_platform(platform) || overlay_ready_for_preroll {
        AutoPlayPlan::PlayNow
    } else {
        AutoPlayPlan::DeferUntilOverlay
    }
}

pub fn plan_load_autoplay(platform: TargetPlatform, auto_play: bool, overlay_ready_for_preroll: bool) -> (p: AutoPlayPlan)
    ensures
        p == autoplay_plan(platform, auto_play, overlay_ready_for_preroll),
{
    if !auto_play {
        return AutoPlayPlan::Idle;
    }
    match platform {
        TargetPlatform::Android => {
            if overlay_ready_for_preroll {
                AutoPlayPlan::PlayNow
            } else {
                AutoPlayPlan::DeferUntilOverlay
            }
        },
        _ => AutoPlayPlan::PlayNow,
    }
}

/// What a play request does after recording the intent.
#[derive(Debug, Clone, Copy, PartialEq, Eq, Structural)]
pub enum PlayPlan {
    /// Android without a cached surface: wait for the overlay bind.
    DeferUntilOverlay,
    /// Resume (play or replay from EOS), first re-applying the cached overlay
    /// handle when asked.
    Resume { rebind_first: bool },
}

pub open spec fn play_plan(platform: TargetPlatform, has_cached_handle: bool, overlay_bound_on_gst: bool) -> PlayPlan {
    if platform == TargetPlatform::Android {
        if !has_cached_handle {
            PlayPlan::DeferUntilOverlay
        } else {
            PlayPlan::Resume { rebind_first: !overlay_bound_on_gst }
        }
    } else {
        PlayPlan::Resume { rebind_first: false }
    }
}

pub fn plan_play(platform: TargetPlatform, has_cached_handle: bool, overlay_bound_on_gst: bool) -> (p: PlayPlan)
    ensures
        p == play_plan(platform, has_cached_handle, overlay_bound_on_gst),
{
    match platform {
        TargetPlatform::Android => {
            if !has_cached_handle {
                PlayPlan::DeferUntilOverlay
            } else {
                PlayPlan::Resume { rebind_first: !overlay_bound_on_gst }
            }
        },
        _ => PlayPlan::Resume { rebind_first: false },
    }
}

/// How a track request reaches the pipeline.
#[derive(Debug, Clone, Copy, PartialEq, Eq, Structural)]
pub enum TrackRequest {
    /// The pipeline does not expose tracks.
    Ignore,
    /// Turn subtitles off.
    DisableSubtitles,
    /// Select the given track.
    Select { track_type: TrackType, track_id: u32 },
}

pub open spec fn track_request(tracks_supported: bool, track_id: u32, track_type: TrackType, enable: bool) -> TrackRequest {
    if !tracks_supported {
        TrackRequest::Ignore
    } else if !enable && track_type == TrackType::Subtitle {
        TrackRequest::DisableSubtitles
    } else {
        TrackRequest::Select { track_type, track_id }
    }
}

/// Routes a track request: nothing without track support; disabling a
/// subtitle track turns subtitles off; anything else selects the track.
pub fn plan_select_track(caps: PipelineCapabilities, track_id: u32, track_type: TrackType, enable: bool) -> (r: TrackRequest)
    ensures
        r == track_request(caps.tracks, track_id, track_type, enable),
{
    if !caps.tracks {
        return TrackRequest::Ignore;
    }
    if !enable {
        if let TrackType::Subtitle = track_type {
            return TrackRequest::DisableSubtitles;
        }
    }
    TrackRequest::Select { track_type, track_id }
}

/// The tracks a player reports: the cached ones when the pipeline exposes
/// tracks, else none.
pub fn query_tracks(caps: PipelineCapabilities, cache: &TrackCache) -> (r: Vec<MediaTrack>)
    ensures
        caps.tracks ==> r@ == cache.tracks@,
        !caps.tracks ==> r@.len() == 0,
{
    if !caps.tracks {
        return Vec::new();
    }
    read_cached_tracks(cache)
}

/// Where an overlay window handle or a layout report goes on each platform.
#[derive(Debug, Clone, Copy, PartialEq, Eq, Structural)]
pub enum OverlayRoute {
    /// macOS: cache the view handle / apply it to the overlay sink.
    Macos,
    /// Android and iOS: the mobile surface notification path.
    Mobile,
    /// Windows and Linux: the window-handle overlay on the GStreamer thread.
    Desktop,
}

pub open spec fn overlay_route_of(platform: TargetPlatform) -> OverlayRoute {
    match platform {
        TargetPlatform::Macos => OverlayRoute::Macos,
        TargetPlatform::Android | TargetPlatform::Ios => OverlayRoute::Mobile,
        _ => OverlayRoute::Desktop,
    }
}

pub fn overlay_route(platform: TargetPlatform) -> (r: OverlayRoute)
    ensures
        r == overlay_route_of(platform),
{
    match platform {
        TargetPlatform::Macos => OverlayRoute::Macos,
        TargetPlatform::Android | TargetPlatform::Ios => OverlayRoute::Mobile,
        _ => OverlayRoute::Desktop,
    }
}

/// The last negotiated video size seen by the sink probe (`0 x 0` before the
/// first caps).
#[derive(Debug, Clone, Copy, PartialEq, Eq, Structural)]
pub struct VideoSizeProbe {
    pub last_width: i32,
    pub last_height: i32,
}

/// What the probe does on a caps event.
#[derive(Debug, Clone)]
pub struct ProbeReaction {
    /// The `VideoSize` event to report (with fresh metadata) on a size change.
    pub size_event: Option<PlayerEvent>,
    /// Android: push the new size to the texture and overlay rectangle.
    pub sync_overlay_size: bool,
    /// Window overlays: expose the overlay on the first real size.
    pub expose_overlay: bool,
}

/// A caps event reports a size other than the last one.
pub open spec fn size_changed(p: VideoSizeProbe, width: i32, height: i32) -> bool {
    p.last_width != width || p.last_height != height
}

/// The probe after a caps event: a changed size becomes the last one.
pub open spec fn probe_after(p: VideoSizeProbe, width: i32, height: i32) -> VideoSizeProbe {
    if size_changed(p, width, height) {
        VideoSizeProbe { last_width: width, last_height: height }
    } else {
        p
    }
}

impl VideoSizeProbe {
    pub fn new() -> (p: Self)
        ensures
            p.last_width == 0 && p.last_height == 0,
    {
        VideoSizeProbe { last_width: 0, last_height: 0 }
    }

    /// A negotiated size: only a change reacts; a change is reported, synced
    /// to an Android overlay when positive, and exposes a window overlay
    /// (not on macOS / iOS) when it is the first positive size.
    pub fn on_caps(&mut self, platform: TargetPlatform, width: i32, height: i32) -> (r: ProbeReaction)
        ensures
            ({
                let changed = size_changed(*old(self), width, height);
                let first = old(self).last_width == 0 && old(self).last_height == 0;
                let positive = width > 0 && height > 0;
                &&& *final(self) == probe_after(*old(self), width, height)
                &&& (changed <==> r.size_event is Some)
                &&& (changed ==> is_video_size_event(r.size_event->0, width, height))
                &&& r.sync_overlay_size == (changed && positive && platform == TargetPlatform::Android)
                &&& r.expose_overlay == (changed && first && positive
                    && platform != TargetPlatform::Macos && platform != TargetPlatform::Ios)
            }),
    {
        if self.last_width == width && self.last_height == height {
            return ProbeReaction { size_event: None, sync_overlay_size: false, expose_overlay: false };
        }
        let first = self.last_width == 0 && self.last_height == 0;
        let positive = width > 0 && height > 0;
        self.last_width = width;
        self.last_height = height;
        let android = match platform {
            TargetPlatform::Android => true,
            _ => false,
        };
        let window_overlay = match platform {
            TargetPlatform::Macos | TargetPlatform::Ios => false,
            _ => true,
        };
        ProbeReaction {
            size_event: Some(PlayerEvent::video_size(width, height)),
            sync_overlay_size: positive && android,
            expose_overlay: first && positive && window_overlay,
        }
    }
}

/// Android size sync runs only for a real size (both sides at least 2) once
/// the player has its id.
pub fn android_size_sync_allowed(width: i32, height: i32, player_id: i64) -> (r: bool)
    ensures
        r == (width >= 2 && height >= 2 && player_id > 0),
{
    if width < 2 || height < 2 {
        return false;
    }
    player_id > 0
}

} // verus!
