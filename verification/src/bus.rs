//! Pure reduction of pipeline bus messages.
//!
//! A bus message is parsed (by the application) into a [`BusMessage`], reduced
//! here together with a [`BusSnapshot`] of the replay flags into a
//! [`BusReduction`], and then applied in this order: the replay patch first,
//! then the events are emitted, then the side effects run on the Gst thread.

use vstd::prelude::*;

use crate::events::{
    events_match, EventShape, PlayerEvent, PlayerState,
};
use crate::pipeline::PipelineState;

verus! {

/// Playback element state carried on bus messages.
#[derive(Debug, Clone, Copy, PartialEq, Eq, Structural)]
pub enum BusPlaybackState {
    Null,
    Ready,
    Paused,
    Playing,
}

/// The player state that a bus element state maps to.
pub open spec fn player_state_of(s: BusPlaybackState) -> PlayerState {
    match s {
        BusPlaybackState::Null => PlayerState::Stopped,
        BusPlaybackState::Ready => PlayerState::Ready,
        BusPlaybackState::Paused => PlayerState::Paused,
        BusPlaybackState::Playing => PlayerState::Playing,
    }
}

impl BusPlaybackState {
    pub fn to_player_state(self) -> (r: PlayerState)
        ensures
            r == player_state_of(self),
    {
        match self {
            BusPlaybackState::Null => PlayerState::Stopped,
            BusPlaybackState::Ready => PlayerState::Ready,
            BusPlaybackState::Paused => PlayerState::Paused,
            BusPlaybackState::Playing => PlayerState::Playing,
        }
    }
}

/// The bus state a pipeline state is reported as (`VoidPending` as `Null`).
pub open spec fn bus_state_of(s: PipelineState) -> BusPlaybackState {
    match s {
        PipelineState::Null => BusPlaybackState::Null,
        PipelineState::Ready => BusPlaybackState::Ready,
        PipelineState::Paused => BusPlaybackState::Paused,
        PipelineState::Playing => BusPlaybackState::Playing,
        PipelineState::VoidPending => BusPlaybackState::Null,
    }
}

pub fn map_playback_state(state: PipelineState) -> (r: BusPlaybackState)
    ensures
        r == bus_state_of(state),
{
    match state {
        PipelineState::Null => BusPlaybackState::Null,
        PipelineState::Ready => BusPlaybackState::Ready,
        PipelineState::Paused => BusPlaybackState::Paused,
        PipelineState::Playing => BusPlaybackState::Playing,
        PipelineState::VoidPending => BusPlaybackState::Null,
    }
}

/// Read-only inputs for pure bus message reduction.
#[derive(Debug, Clone, Copy, PartialEq, Eq, Structural)]
pub struct BusSnapshot {
    pub desired_playing: bool,
    pub looping: bool,
    pub is_playbin: bool,
    pub overlay_bound: bool,
}

impl BusSnapshot {
    pub fn new(
        desired_playing: bool,
        looping: bool,
        is_playbin: bool,
        overlay_bound: bool,
    ) -> (s: Self)
        ensures
            s.desired_playing == desired_playing,
            s.looping == looping,
            s.is_playbin == is_playbin,
            s.overlay_bound == overlay_bound,
    {
        BusSnapshot { desired_playing, looping, is_playbin, overlay_bound }
    }
}

/// Parsed bus message (no GStreamer types).
#[derive(Debug, Clone, PartialEq, Eq)]
pub enum BusMessage {
    Eos,
    Error { message: String },
    Buffering { percent: i32 },
    ClockLost,
    DurationChanged { duration_ms: i64 },
    AsyncDone { position_ms: Option<i64> },
    StateChanged {
        is_pipeline: bool,
        old: BusPlaybackState,
        current: BusPlaybackState,
        duration_ms: Option<i64>,
    },
    StreamCollection,
    StreamsSelected,
}

/// Whether a state change needs the pipeline duration queried: only the
/// pipeline's own transitions into Paused or Playing carry one.
pub open spec fn wants_duration(is_pipeline: bool, current: PipelineState) -> bool {
    is_pipeline && (current == PipelineState::Paused || current == PipelineState::Playing)
}

pub fn state_change_wants_duration(is_pipeline: bool, current: PipelineState) -> (r: bool)
    ensures
        r == wants_duration(is_pipeline, current),
{
    is_pipeline && (current == PipelineState::Paused || current == PipelineState::Playing)
}

/// Builds the `StateChanged` message for a bus state change; `queried_duration_ms`
/// is what a duration query returned, and is kept only where one is wanted.
pub fn state_changed_message(
    is_pipeline: bool,
    old: PipelineState,
    current: PipelineState,
    queried_duration_ms: Option<i64>,
) -> (m: BusMessage)
    ensures
        m == (BusMessage::StateChanged {
            is_pipeline,
            old: bus_state_of(old),
            current: bus_state_of(current),
            duration_ms: if wants_duration(is_pipeline, current) {
                queried_duration_ms
            } else {
                None
            },
        }),
{
    let duration_ms = if state_change_wants_duration(is_pipeline, current) {
        queried_duration_ms
    } else {
        None
    };
    BusMessage::StateChanged {
        is_pipeline,
        old: map_playback_state(old),
        current: map_playback_state(current),
        duration_ms,
    }
}

/// Replay flags to apply before emitting events.
#[derive(Debug, Clone, Copy, Default, PartialEq, Eq, Structural)]
pub struct BusReplayPatch {
    pub at_eos: Option<bool>,
    pub desired_playing: Option<bool>,
}

/// The patch that changes nothing.
pub open spec fn empty_patch() -> BusReplayPatch {
    BusReplayPatch { at_eos: None, desired_playing: None }
}

/// Imperative side effects executed on the Gst thread after reduction. The
/// `Ios*` effects are only produced for iOS.
#[derive(Debug, Clone, Copy, PartialEq, Eq, Structural)]
pub enum BusSideEffect {
    EosLoopSeek,
    PausePipelineForBuffering,
    ResumePipelineAfterBuffering,
    ClockLostRecover,
    IosSetBufferingActive(bool),
    IosSetPendingPlayAfterOverlay,
    IosScheduleApply,
    IosScheduleAttach,
    TrackCacheSyncFromCollection,
    TrackCacheMarkSelected,
}

/// The target whose bus handling is reduced: iOS drives its overlay session
/// from bus messages, every other target drives the pipeline directly.
#[derive(Debug, Clone, Copy, PartialEq, Eq, Structural)]
pub enum BusPlatform {
    Ios,
    NonIos,
}

#[derive(Debug, Clone)]
pub struct BusReduction {
    pub events: Vec<PlayerEvent>,
    pub effects: Vec<BusSideEffect>,
    pub replay_patch: BusReplayPatch,
}

/// The model of a reduction: event shapes, side effects and replay patch.
pub struct ReductionSpec {
    pub events: Seq<EventShape>,
    pub effects: Seq<BusSideEffect>,
    pub patch: BusReplayPatch,
}

pub open spec fn spec_reduction(
    events: Seq<EventShape>,
    effects: Seq<BusSideEffect>,
    patch: BusReplayPatch,
) -> ReductionSpec {
    ReductionSpec { events, effects, patch }
}

pub open spec fn nothing() -> ReductionSpec {
    spec_reduction(Seq::empty(), Seq::empty(), empty_patch())
}

/// End of stream: a looping player seeks back and clears `at_eos`; otherwise
/// the stream completes, `at_eos` is set and play is no longer desired.
pub open spec fn eos_spec(s: BusSnapshot) -> ReductionSpec {
    if s.looping {
        spec_reduction(
            Seq::empty(),
            seq![BusSideEffect::EosLoopSeek],
            BusReplayPatch { at_eos: Some(false), desired_playing: None },
        )
    } else {
        spec_reduction(
            seq![EventShape::Eos, EventShape::State(PlayerState::Completed)],
            Seq::empty(),
            BusReplayPatch { at_eos: Some(true), desired_playing: Some(false) },
        )
    }
}

/// Buffering: the percentage is always reported; the pipeline reacts only when
/// play is desired.
pub open spec fn buffering_spec(p: BusPlatform, percent: i32, s: BusSnapshot) -> ReductionSpec {
    if !s.desired_playing {
        spec_reduction(seq![EventShape::Buffering(percent)], Seq::empty(), empty_patch())
    } else if p == BusPlatform::Ios {
        if percent < 100 {
            spec_reduction(
                seq![EventShape::Buffering(percent), EventShape::State(PlayerState::Buffering)],
                seq![BusSideEffect::IosSetBufferingActive(true), BusSideEffect::IosScheduleApply],
                empty_patch(),
            )
        } else {
            spec_reduction(
                if s.overlay_bound {
                    seq![EventShape::Buffering(percent), EventShape::State(PlayerState::Playing)]
                } else {
                    seq![EventShape::Buffering(percent)]
                },
                if s.overlay_bound {
                    seq![BusSideEffect::IosSetBufferingActive(false), BusSideEffect::IosScheduleApply]
                } else {
                    seq![
                        BusSideEffect::IosSetBufferingActive(false),
                        BusSideEffect::IosSetPendingPlayAfterOverlay,
                        BusSideEffect::IosScheduleApply,
                    ]
                },
                empty_patch(),
            )
        }
    } else if percent < 100 {
        spec_reduction(
            seq![EventShape::Buffering(percent), EventShape::State(PlayerState::Buffering)],
            seq![BusSideEffect::PausePipelineForBuffering],
            empty_patch(),
        )
    } else {
        spec_reduction(
            seq![EventShape::Buffering(percent)],
            seq![BusSideEffect::ResumePipelineAfterBuffering],
            empty_patch(),
        )
    }
}

/// Clock lost: recover only when play is desired.
pub open spec fn clock_lost_spec(p: BusPlatform, s: BusSnapshot) -> ReductionSpec {
    if !s.desired_playing {
        nothing()
    } else if p == BusPlatform::Ios {
        spec_reduction(
            Seq::empty(),
            if s.overlay_bound {
                seq![BusSideEffect::IosScheduleApply]
            } else {
                seq![BusSideEffect::IosSetPendingPlayAfterOverlay, BusSideEffect::IosScheduleApply]
            },
            empty_patch(),
        )
    } else {
        spec_reduction(Seq::empty(), seq![BusSideEffect::ClockLostRecover], empty_patch())
    }
}

/// Async-done: report the position when play is desired and one is known.
pub open spec fn async_done_spec(p: BusPlatform, position_ms: Option<i64>, s: BusSnapshot) -> ReductionSpec {
    spec_reduction(
        if s.desired_playing && position_ms is Some {
            seq![EventShape::Position(position_ms->0)]
        } else {
            Seq::empty()
        },
        if p == BusPlatform::Ios {
            seq![BusSideEffect::IosScheduleAttach]
        } else {
            Seq::empty()
        },
        empty_patch(),
    )
}

/// The state event of a pipeline state change: Paused while play is desired is
/// reported as Buffering (preroll, waiting for the overlay).
pub open spec fn state_shape(current: BusPlaybackState, s: BusSnapshot) -> EventShape {
    if current == BusPlaybackState::Paused && s.desired_playing {
        EventShape::State(PlayerState::Buffering)
    } else {
        EventShape::State(player_state_of(current))
    }
}

pub open spec fn state_changed_events(
    current: BusPlaybackState,
    duration_ms: Option<i64>,
    s: BusSnapshot,
) -> Seq<EventShape> {
    let first = seq![state_shape(current, s)];
    let with_buffering = if current == BusPlaybackState::Playing && s.desired_playing {
        first.push(EventShape::Buffering(100))
    } else {
        first
    };
    if duration_ms is Some {
        with_buffering.push(EventShape::Duration(duration_ms->0))
    } else {
        with_buffering
    }
}

/// State changes of elements other than the pipeline are ignored.
pub open spec fn state_changed_spec(
    p: BusPlatform,
    is_pipeline: bool,
    old: BusPlaybackState,
    current: BusPlaybackState,
    duration_ms: Option<i64>,
    s: BusSnapshot,
) -> ReductionSpec {
    if !is_pipeline {
        nothing()
    } else {
        spec_reduction(
            state_changed_events(current, duration_ms, s),
            if p == BusPlatform::Ios && old == BusPlaybackState::Ready
                && current == BusPlaybackState::Paused {
                seq![BusSideEffect::IosScheduleAttach]
            } else {
                Seq::empty()
            },
            empty_patch(),
        )
    }
}

/// Stream collection / selection: only a playbin has a track cache to update.
pub open spec fn tracks_spec(effect: BusSideEffect, s: BusSnapshot) -> ReductionSpec {
    if !s.is_playbin {
        nothing()
    } else {
        spec_reduction(seq![EventShape::TracksChanged], seq![effect], empty_patch())
    }
}

/// What a bus message reduces to.
pub open spec fn reduce_spec(p: BusPlatform, m: BusMessage, s: BusSnapshot) -> ReductionSpec {
    match m {
        BusMessage::Eos => eos_spec(s),
        BusMessage::Error { .. } => spec_reduction(
            seq![EventShape::Error, EventShape::State(PlayerState::Error)],
            Seq::empty(),
            empty_patch(),
        ),
        BusMessage::Buffering { percent } => buffering_spec(p, percent, s),
        BusMessage::ClockLost => clock_lost_spec(p, s),
        BusMessage::DurationChanged { duration_ms } => spec_reduction(
            seq![EventShape::Duration(duration_ms)],
            Seq::empty(),
            empty_patch(),
        ),
        BusMessage::AsyncDone { position_ms } => async_done_spec(p, position_ms, s),
        BusMessage::StateChanged { is_pipeline, old, current, duration_ms } =>
            state_changed_spec(p, is_pipeline, old, current, duration_ms, s),
        BusMessage::StreamCollection => tracks_spec(BusSideEffect::TrackCacheSyncFromCollection, s),
        BusMessage::StreamsSelected => tracks_spec(BusSideEffect::TrackCacheMarkSelected, s),
    }
}

/// `r` is the reduction of `m` on `s` for platform `p`; an error message's text
/// is carried into the error event.
pub open spec fn reduces_to(p: BusPlatform, m: BusMessage, s: BusSnapshot, r: BusReduction) -> bool {
    let spec = reduce_spec(p, m, s);
    &&& events_match(r.events@, spec.events)
    &&& r.effects@ == spec.effects
    &&& r.replay_patch == spec.patch
    &&& (m matches BusMessage::Error { message } ==> r.events@[0].message@ == message@)
}

impl BusReduction {
    fn default_empty() -> (r: Self)
        ensures
            r.events@.len() == 0,
            r.effects@ == Seq::<BusSideEffect>::empty(),
            r.replay_patch == empty_patch(),
    {
        BusReduction { events: Vec::new(), effects: Vec::new(), replay_patch: no_patch() }
    }
}

fn no_patch() -> (p: BusReplayPatch)
    ensures
        p == empty_patch(),
{
    BusReplayPatch { at_eos: None, desired_playing: None }
}

/// Reduces one bus message for every target but iOS.
pub fn reduce_bus_message(message: BusMessage, snapshot: BusSnapshot) -> (r: BusReduction)
    ensures
        reduces_to(BusPlatform::NonIos, message, snapshot, r),
{
    reduce_bus_message_for(BusPlatform::NonIos, message, snapshot)
}

/// Reduces one bus message for the given target.
pub fn reduce_bus_message_for(
    platform: BusPlatform,
    message: BusMessage,
    snapshot: BusSnapshot,
) -> (r: BusReduction)
    ensures
        reduces_to(platform, message, snapshot, r),
{
    let ghost m = message;
    match message {
        BusMessage::Eos => reduce_eos(snapshot),
        BusMessage::Error { message } => {
            let mut events: Vec<PlayerEvent> = Vec::new();
            events.push(PlayerEvent::error(message));
            events.push(PlayerEvent::state(PlayerState::Error));
            let r = BusReduction { events, effects: Vec::new(), replay_patch: no_patch() };
            assert(r.effects@ =~= Seq::<BusSideEffect>::empty());
            r
        },
        BusMessage::Buffering { percent } => reduce_buffering(platform, percent, snapshot),
        BusMessage::ClockLost => reduce_clock_lost(platform, snapshot),
        BusMessage::DurationChanged { duration_ms } => {
            let mut events: Vec<PlayerEvent> = Vec::new();
            events.push(PlayerEvent::duration(duration_ms));
            let r = BusReduction { events, effects: Vec::new(), replay_patch: no_patch() };
            assert(r.effects@ =~= Seq::<BusSideEffect>::empty());
            r
        },
        BusMessage::AsyncDone { position_ms } => reduce_async_done(platform, position_ms, snapshot),
        BusMessage::StateChanged { is_pipeline, old, current, duration_ms } =>
            reduce_state_changed(platform, is_pipeline, old, current, duration_ms, snapshot),
        BusMessage::StreamCollection =>
            reduce_tracks(BusSideEffect::TrackCacheSyncFromCollection, snapshot),
        BusMessage::StreamsSelected => reduce_tracks(BusSideEffect::TrackCacheMarkSelected, snapshot),
    }
}

fn reduce_eos(snapshot: BusSnapshot) -> (r: BusReduction)
    ensures
        events_match(r.events@, eos_spec(snapshot).events),
        r.effects@ == eos_spec(snapshot).effects,
        r.replay_patch == eos_spec(snapshot).patch,
{
    if snapshot.looping {
        let mut effects: Vec<BusSideEffect> = Vec::new();
        effects.push(BusSideEffect::EosLoopSeek);
        let r = BusReduction {
            events: Vec::new(),
            effects,
            replay_patch: BusReplayPatch { at_eos: Some(false), desired_playing: None },
        };
        assert(r.effects@ =~= seq![BusSideEffect::EosLoopSeek]);
        r
    } else {
        let mut events: Vec<PlayerEvent> = Vec::new();
        events.push(PlayerEvent::eos());
        events.push(PlayerEvent::state(PlayerState::Completed));
        let r = BusReduction {
            events,
            effects: Vec::new(),
            replay_patch: BusReplayPatch { at_eos: Some(true), desired_playing: Some(false) },
        };
        assert(r.effects@ =~= Seq::<BusSideEffect>::empty());
        r
    }
}

fn reduce_buffering(platform: BusPlatform, percent: i32, snapshot: BusSnapshot) -> (r: BusReduction)
    ensures
        events_match(r.events@, buffering_spec(platform, percent, snapshot).events),
        r.effects@ == buffering_spec(platform, percent, snapshot).effects,
        r.replay_patch == buffering_spec(platform, percent, snapshot).patch,
{
    let mut events: Vec<PlayerEvent> = Vec::new();
    events.push(PlayerEvent::buffering(percent));
    let mut effects: Vec<BusSideEffect> = Vec::new();

    if !snapshot.desired_playing {
        assert(effects@ =~= Seq::<BusSideEffect>::empty());
        return BusReduction { events, effects, replay_patch: no_patch() };
    }
    match platform {
        BusPlatform::Ios => {
            if percent < 100 {
                events.push(PlayerEvent::state(PlayerState::Buffering));
                effects.push(BusSideEffect::IosSetBufferingActive(true));
            } else {
                effects.push(BusSideEffect::IosSetBufferingActive(false));
                if !snapshot.overlay_bound {
                    effects.push(BusSideEffect::IosSetPendingPlayAfterOverlay);
                }
                if snapshot.desired_playing && snapshot.overlay_bound {
                    events.push(PlayerEvent::state(PlayerState::Playing));
                }
            }
            effects.push(BusSideEffect::IosScheduleApply);
            let r = BusReduction { events, effects, replay_patch: no_patch() };
            assert(r.effects@ =~= buffering_spec(platform, percent, snapshot).effects);
            r
        },
        BusPlatform::NonIos => {
            if percent < 100 {
                events.push(PlayerEvent::state(PlayerState::Buffering));
                effects.push(BusSideEffect::PausePipelineForBuffering);
            } else {
                effects.push(BusSideEffect::ResumePipelineAfterBuffering);
            }
            let r = BusReduction { events, effects, replay_patch: no_patch() };
            assert(r.effects@ =~= buffering_spec(platform, percent, snapshot).effects);
            r
        },
    }
}

fn reduce_clock_lost(platform: BusPlatform, snapshot: BusSnapshot) -> (r: BusReduction)
    ensures
        events_match(r.events@, clock_lost_spec(platform, snapshot).events),
        r.effects@ == clock_lost_spec(platform, snapshot).effects,
        r.replay_patch == clock_lost_spec(platform, snapshot).patch,
{
    if !snapshot.desired_playing {
        let r = BusReduction::default_empty();
        assert(r.effects@ =~= Seq::<BusSideEffect>::empty());
        return r;
    }
    let mut effects: Vec<BusSideEffect> = Vec::new();
    match platform {
        BusPlatform::Ios => {
            if !snapshot.overlay_bound {
                effects.push(BusSideEffect::IosSetPendingPlayAfterOverlay);
            }
            effects.push(BusSideEffect::IosScheduleApply);
        },
        BusPlatform::NonIos => {
            effects.push(BusSideEffect::ClockLostRecover);
        },
    }
    let r = BusReduction { events: Vec::new(), effects, replay_patch: no_patch() };
    assert(r.effects@ =~= clock_lost_spec(platform, snapshot).effects);
    r
}

fn reduce_async_done(
    platform: BusPlatform,
    position_ms: Option<i64>,
    snapshot: BusSnapshot,
) -> (r: BusReduction)
    ensures
        events_match(r.events@, async_done_spec(platform, position_ms, snapshot).events),
        r.effects@ == async_done_spec(platform, position_ms, snapshot).effects,
        r.replay_patch == async_done_spec(platform, position_ms, snapshot).patch,
{
    let mut effects: Vec<BusSideEffect> = Vec::new();
    if let BusPlatform::Ios = platform {
        effects.push(BusSideEffect::IosScheduleAttach);
    }
    let mut events: Vec<PlayerEvent> = Vec::new();
    if snapshot.desired_playing {
        if let Some(position_ms) = position_ms {
            events.push(PlayerEvent::position(position_ms));
        }
    }
    let r = BusReduction { events, effects, replay_patch: no_patch() };
    assert(r.effects@ =~= async_done_spec(platform, position_ms, snapshot).effects);
    r
}

fn reduce_state_changed(
    platform: BusPlatform,
    is_pipeline: bool,
    old: BusPlaybackState,
    current: BusPlaybackState,
    duration_ms: Option<i64>,
    snapshot: BusSnapshot,
) -> (r: BusReduction)
    ensures
        events_match(
            r.events@,
            state_changed_spec(platform, is_pipeline, old, current, duration_ms, snapshot).events,
        ),
        r.effects@ == state_changed_spec(platform, is_pipeline, old, current, duration_ms, snapshot).effects,
        r.replay_patch == state_changed_spec(platform, is_pipeline, old, current, duration_ms, snapshot).patch,
{
    if !is_pipeline {
        let r = BusReduction::default_empty();
        assert(r.effects@ =~= Seq::<BusSideEffect>::empty());
        return r;
    }
    let mut effects: Vec<BusSideEffect> = Vec::new();
    if let BusPlatform::Ios = platform {
        if old == BusPlaybackState::Ready && current == BusPlaybackState::Paused {
            effects.push(BusSideEffect::IosScheduleAttach);
        }
    }
    let mut events: Vec<PlayerEvent> = Vec::new();
    if current == BusPlaybackState::Paused && snapshot.desired_playing {
        events.push(PlayerEvent::state(PlayerState::Buffering));
    } else {
        events.push(PlayerEvent::state(current.to_player_state()));
    }
    if current == BusPlaybackState::Playing && snapshot.desired_playing {
        events.push(PlayerEvent::buffering(100));
    }
    if let Some(duration_ms) = duration_ms {
        events.push(PlayerEvent::duration(duration_ms));
    }
    let r = BusReduction { events, effects, replay_patch: no_patch() };
    let ghost spec = state_changed_spec(platform, is_pipeline, old, current, duration_ms, snapshot);
    assert(r.effects@ =~= spec.effects);
    assert(r.events@.len() == spec.events.len());
    r
}

fn reduce_tracks(effect: BusSideEffect, snapshot: BusSnapshot) -> (r: BusReduction)
    ensures
        events_match(r.events@, tracks_spec(effect, snapshot).events),
        r.effects@ == tracks_spec(effect, snapshot).effects,
        r.replay_patch == tracks_spec(effect, snapshot).patch,
{
    if !snapshot.is_playbin {
        let r = BusReduction::default_empty();
        assert(r.effects@ =~= Seq::<BusSideEffect>::empty());
        return r;
    }
    let mut events: Vec<PlayerEvent> = Vec::new();
    events.push(PlayerEvent::tracks_changed());
    let mut effects: Vec<BusSideEffect> = Vec::new();
    effects.push(effect);
    let r = BusReduction { events, effects, replay_patch: no_patch() };
    assert(r.effects@ =~= seq![effect]);
    r
}

/// Playback intent shared by the bus, overlay bind and resume paths: whether
/// the user wants playback, whether the stream sits at its end, and whether the
/// player is running (not torn down).
#[derive(Debug, Clone, Copy, PartialEq, Eq, Structural)]
pub struct PlayReplayContext {
    pub desired_playing: bool,
    pub at_eos: bool,
    pub running: bool,
}

/// Each flag that the patch sets takes its value; the others keep theirs.
pub open spec fn patched(flags: PlayReplayContext, patch: BusReplayPatch) -> PlayReplayContext {
    PlayReplayContext {
        at_eos: if patch.at_eos is Some { patch.at_eos->0 } else { flags.at_eos },
        desired_playing: if patch.desired_playing is Some {
            patch.desired_playing->0
        } else {
            flags.desired_playing
        },
        running: flags.running,
    }
}

pub fn apply_bus_replay_patch(patch: BusReplayPatch, flags: &mut PlayReplayContext)
    ensures
        *final(flags) == patched(*old(flags), patch),
{
    if let Some(value) = patch.at_eos {
        flags.at_eos = value;
    }
    if let Some(value) = patch.desired_playing {
        flags.desired_playing = value;
    }
}

/// The position poll reports only while the pipeline is Playing or Paused.
pub fn position_poll_reports(current: PipelineState) -> (r: bool)
    ensures
        r == (current == PipelineState::Playing || current == PipelineState::Paused),
{
    current == PipelineState::Playing || current == PipelineState::Paused
}

/// The period of the position poll, in milliseconds.
pub const POSITION_POLL_INTERVAL_MS: u64 = 200;

/// What one tick of the position poll does.
#[derive(Debug, Clone, Copy, PartialEq, Eq, Structural)]
pub enum PositionTick {
    /// The bus handler stopped running: remove the poll.
    Stop,
    /// Keep polling, report nothing this tick.
    Skip,
    /// Query the position and report it (at most once), keep polling.
    Report,
}

/// One position-poll tick: it stops for good once the handler is no longer
/// running, and reports only while the pipeline is Playing or Paused.
pub fn position_tick(running: bool, current: PipelineState) -> (t: PositionTick)
    ensures
        t == (if !running {
            PositionTick::Stop
        } else if current == PipelineState::Playing || current == PipelineState::Paused {
            PositionTick::Report
        } else {
            PositionTick::Skip
        }),
{
    if !running {
        return PositionTick::Stop;
    }
    if position_poll_reports(current) {
        PositionTick::Report
    } else {
        PositionTick::Skip
    }
}

/// One step of handling a reduced bus message, in the order the steps run.
#[derive(Debug, Clone, Copy, PartialEq, Eq, Structural)]
pub enum DispatchStep {
    /// Write the replay patch into the shared flags.
    ApplyReplayPatch,
    /// Emit `events[index]` of the reduction.
    EmitEvent { index: usize },
    /// Run `effects[index]` of the reduction on the Gst thread.
    ApplySideEffect { index: usize },
}

/// The order in which a reduced bus message is handled: nothing once the bus
/// handler has stopped running; otherwise the replay patch first (so that an
/// event listener already sees the new flags), then every event in order, then
/// every side effect in order.
pub fn dispatch_plan(running: bool, reduction: &BusReduction) -> (plan: Vec<DispatchStep>)
    ensures
        !running ==> plan@.len() == 0,
        running ==> {
            &&& plan@.len() == 1 + reduction.events@.len() + reduction.effects@.len()
            &&& plan@[0] == DispatchStep::ApplyReplayPatch
            &&& forall|i: int| 0 <= i < reduction.events@.len() ==>
                    #[trigger] plan@[1 + i] == (DispatchStep::EmitEvent { index: i as usize })
            &&& forall|j: int| 0 <= j < reduction.effects@.len() ==>
                    #[trigger] plan@[1 + reduction.events@.len() + j]
                        == (DispatchStep::ApplySideEffect { index: j as usize })
        },
{
    let mut plan: Vec<DispatchStep> = Vec::new();
    if !running {
        return plan;
    }
    plan.push(DispatchStep::ApplyReplayPatch);
    let n_events = reduction.events.len();
    let mut i: usize = 0;
    while i < n_events
        invariant
            n_events == reduction.events@.len(),
            i <= n_events,
            plan@.len() == 1 + i,
            plan@[0] == DispatchStep::ApplyReplayPatch,
            forall|k: int| 0 <= k < i ==> #[trigger] plan@[1 + k] == (DispatchStep::EmitEvent { index: k as usize }),
        decreases n_events - i,
    {
        plan.push(DispatchStep::EmitEvent { index: i });
        i = i + 1;
    }
    let n_effects = reduction.effects.len();
    let mut j: usize = 0;
    while j < n_effects
        invariant
            n_events == reduction.events@.len(),
            n_effects == reduction.effects@.len(),
            j <= n_effects,
            plan@.len() == 1 + n_events + j,
            plan@[0] == DispatchStep::ApplyReplayPatch,
            forall|k: int| 0 <= k < n_events ==> #[trigger] plan@[1 + k] == (DispatchStep::EmitEvent { index: k as usize }),
            forall|k: int| 0 <= k < j ==>
                #[trigger] plan@[1 + n_events + k] == (DispatchStep::ApplySideEffect { index: k as usize }),
        decreases n_effects - j,
    {
        plan.push(DispatchStep::ApplySideEffect { index: j });
        j = j + 1;
    }
    plan
}

} // verus!
