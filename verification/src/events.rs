//! Events reported to the Dart layer.

use vstd::prelude::*;

verus! {

/// High-level playback state reported to Dart.
#[derive(Debug, Clone, Copy, PartialEq, Eq, Structural)]
pub enum PlayerState {
    Idle,
    Ready,
    Buffering,
    Playing,
    Paused,
    Stopped,
    Completed,
    Error,
}

/// Discriminates which fields of [`PlayerEvent`] are meaningful.
#[derive(Debug, Clone, Copy, PartialEq, Eq, Structural)]
pub enum PlayerEventKind {
    DurationChanged,
    PositionChanged,
    VideoSize,
    StateChanged,
    Buffering,
    Eos,
    Error,
    TracksChanged,
}

/// A flat event struct pushed to Dart over a broadcast stream.
#[derive(Debug, Clone)]
pub struct PlayerEvent {
    pub kind: PlayerEventKind,
    pub position_ms: i64,
    pub duration_ms: i64,
    pub width: i32,
    pub height: i32,
    pub buffering_percent: i32,
    pub state: PlayerState,
    pub message: String,
}

/// `e` holds exactly the given field values (the message by its characters).
pub open spec fn event_is(
    e: PlayerEvent,
    kind: PlayerEventKind,
    position_ms: i64,
    duration_ms: i64,
    width: i32,
    height: i32,
    buffering_percent: i32,
    state: PlayerState,
    message: Seq<char>,
) -> bool {
    &&& e.kind == kind
    &&& e.position_ms == position_ms
    &&& e.duration_ms == duration_ms
    &&& e.width == width
    &&& e.height == height
    &&& e.buffering_percent == buffering_percent
    &&& e.state == state
    &&& e.message@ == message
}

/// The event of kind `kind` whose other fields all hold their neutral value.
pub open spec fn is_base_event(e: PlayerEvent, kind: PlayerEventKind) -> bool {
    event_is(e, kind, 0, 0, 0, 0, 0, PlayerState::Idle, Seq::empty())
}

/// A `DurationChanged` event carrying `d`.
pub open spec fn is_duration_event(e: PlayerEvent, d: i64) -> bool {
    event_is(e, PlayerEventKind::DurationChanged, 0, d, 0, 0, 0, PlayerState::Idle, Seq::empty())
}

/// A `PositionChanged` event carrying `p`.
pub open spec fn is_position_event(e: PlayerEvent, p: i64) -> bool {
    event_is(e, PlayerEventKind::PositionChanged, p, 0, 0, 0, 0, PlayerState::Idle, Seq::empty())
}

/// A `VideoSize` event carrying `w` x `h`.
pub open spec fn is_video_size_event(e: PlayerEvent, w: i32, h: i32) -> bool {
    event_is(e, PlayerEventKind::VideoSize, 0, 0, w, h, 0, PlayerState::Idle, Seq::empty())
}

/// A `StateChanged` event carrying `s`.
pub open spec fn is_state_event(e: PlayerEvent, s: PlayerState) -> bool {
    event_is(e, PlayerEventKind::StateChanged, 0, 0, 0, 0, 0, s, Seq::empty())
}

/// A `Buffering` event carrying `pct`.
pub open spec fn is_buffering_event(e: PlayerEvent, pct: i32) -> bool {
    event_is(e, PlayerEventKind::Buffering, 0, 0, 0, 0, pct, PlayerState::Idle, Seq::empty())
}

/// An `Eos` event.
pub open spec fn is_eos_event(e: PlayerEvent) -> bool {
    is_base_event(e, PlayerEventKind::Eos)
}

/// A `TracksChanged` event.
pub open spec fn is_tracks_changed_event(e: PlayerEvent) -> bool {
    is_base_event(e, PlayerEventKind::TracksChanged)
}

/// The shape of an event: its kind and the one field that kind carries (the
/// message of an error event is checked on its own).
pub enum EventShape {
    Duration(i64),
    Position(i64),
    VideoSize(i32, i32),
    State(PlayerState),
    Buffering(i32),
    Eos,
    Error,
    TracksChanged,
}

/// `e` has shape `d`.
pub open spec fn event_matches(e: PlayerEvent, d: EventShape) -> bool {
    match d {
        EventShape::Duration(v) => is_duration_event(e, v),
        EventShape::Position(v) => is_position_event(e, v),
        EventShape::VideoSize(w, h) => is_video_size_event(e, w, h),
        EventShape::State(s) => is_state_event(e, s),
        EventShape::Buffering(p) => is_buffering_event(e, p),
        EventShape::Eos => is_eos_event(e),
        EventShape::Error => is_error_event(e, e.message@),
        EventShape::TracksChanged => is_tracks_changed_event(e),
    }
}

/// The events `es` have, one for one, the shapes `ds`.
pub open spec fn events_match(es: Seq<PlayerEvent>, ds: Seq<EventShape>) -> bool {
    &&& es.len() == ds.len()
    &&& forall|i: int| 0 <= i < es.len() ==> event_matches(#[trigger] es[i], ds[i])
}

/// An `Error` event whose message is `m`.
pub open spec fn is_error_event(e: PlayerEvent, m: Seq<char>) -> bool {
    event_is(e, PlayerEventKind::Error, 0, 0, 0, 0, 0, PlayerState::Idle, m)
}

impl PlayerEvent {
    /// An event of `kind` with every other field neutral.
    pub fn base(kind: PlayerEventKind) -> (e: Self)
        ensures
            is_base_event(e, kind),
    {
        PlayerEvent {
            kind,
            position_ms: 0,
            duration_ms: 0,
            width: 0,
            height: 0,
            buffering_percent: 0,
            state: PlayerState::Idle,
            message: String::new(),
        }
    }

    pub fn duration(duration_ms: i64) -> (e: Self)
        ensures
            is_duration_event(e, duration_ms),
    {
        let mut e = Self::base(PlayerEventKind::DurationChanged);
        e.duration_ms = duration_ms;
        e
    }

    pub fn position(position_ms: i64) -> (e: Self)
        ensures
            is_position_event(e, position_ms),
    {
        let mut e = Self::base(PlayerEventKind::PositionChanged);
        e.position_ms = position_ms;
        e
    }

    pub fn video_size(width: i32, height: i32) -> (e: Self)
        ensures
            is_video_size_event(e, width, height),
    {
        let mut e = Self::base(PlayerEventKind::VideoSize);
        e.width = width;
        e.height = height;
        e
    }

    pub fn state(state: PlayerState) -> (e: Self)
        ensures
            is_state_event(e, state),
    {
        let mut e = Self::base(PlayerEventKind::StateChanged);
        e.state = state;
        e
    }

    pub fn buffering(buffering_percent: i32) -> (e: Self)
        ensures
            is_buffering_event(e, buffering_percent),
    {
        let mut e = Self::base(PlayerEventKind::Buffering);
        e.buffering_percent = buffering_percent;
        e
    }

    pub fn eos() -> (e: Self)
        ensures
            is_eos_event(e),
    {
        Self::base(PlayerEventKind::Eos)
    }

    pub fn tracks_changed() -> (e: Self)
        ensures
            is_tracks_changed_event(e),
    {
        Self::base(PlayerEventKind::TracksChanged)
    }

    pub fn error(message: String) -> (e: Self)
        ensures
            is_error_event(e, message@),
    {
        let mut e = Self::base(PlayerEventKind::Error);
        e.message = message;
        e
    }
}

/// Media track kind.
#[derive(Debug, Clone, Copy, PartialEq, Eq, Structural)]
pub enum TrackType {
    Audio,
    Video,
    Subtitle,
}

/// A selectable media track as shown to Dart.
#[derive(Debug, Clone)]
pub struct MediaTrack {
    pub id: u32,
    pub track_type: TrackType,
    pub language: String,
    pub label: String,
    pub selected: bool,
}

} // verus!
