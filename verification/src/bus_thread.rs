//! The single-pipeline player (`GstPlayer` with its own bus thread): how its
//! bus loop reacts to each message, and what its play path does at the end
//! of stream.

use vstd::prelude::*;

use crate::events::{
    is_buffering_event, is_duration_event, is_eos_event, is_error_event, is_state_event,
    PlayerEvent, PlayerState,
};
use crate::pipeline::PipelineState;

verus! {

/// A bus message as the bus thread sees it; durations are what a duration
/// query returned (`None` when it failed).
#[derive(Debug, Clone)]
pub enum BusThreadEvent {
    Eos,
    Error { message: String },
    Buffering { percent: i32 },
    DurationChanged { duration_ms: Option<i64> },
    /// A state change of the pipeline itself (changes of other elements are
    /// `Other`); the duration is queried when the new state is Paused or
    /// Playing.
    PipelineStateChanged { current: PipelineState, duration_ms: Option<i64> },
    Other,
}

/// What the bus thread does for one message: events to emit, a state to set,
/// whether to seek back to the start (looping), and the new `at_eos` value.
#[derive(Debug, Clone)]
pub struct BusThreadReaction {
    pub events: Vec<PlayerEvent>,
    pub set_state: Option<PipelineState>,
    pub loop_seek: bool,
    pub at_eos: Option<bool>,
}

/// The player state a pipeline state is reported as (a pending-only state is
/// `Idle`).
pub open spec fn thread_state_of(s: PipelineState) -> PlayerState {
    match s {
        PipelineState::Null => PlayerState::Stopped,
        PipelineState::Ready => PlayerState::Ready,
        PipelineState::Paused => PlayerState::Paused,
        PipelineState::Playing => PlayerState::Playing,
        PipelineState::VoidPending => PlayerState::Idle,
    }
}

pub fn map_state(state: PipelineState) -> (r: PlayerState)
    ensures
        r == thread_state_of(state),
{
    match state {
        PipelineState::Null => PlayerState::Stopped,
        PipelineState::Ready => PlayerState::Ready,
        PipelineState::Paused => PlayerState::Paused,
        PipelineState::Playing => PlayerState::Playing,
        PipelineState::VoidPending => PlayerState::Idle,
    }
}

/// The reaction to each message:
/// - end of stream: a looping player seeks back and leaves its end; otherwise
///   it reports `Eos` then `Completed` and stays at its end;
/// - an error is reported with its text, then the `Error` state;
/// - buffering reports its percentage and, while the user wants playback,
///   pauses below 100 % and plays at 100 %;
/// - a duration change reports the queried duration, if any;
/// - a pipeline state change reports the state, then the queried duration;
/// - anything else is ignored.
pub open spec fn thread_reaction_ok(e: BusThreadEvent, desired_playing: bool, looping: bool, r: BusThreadReaction) -> bool {
    let ev = r.events@;
    match e {
        BusThreadEvent::Eos => if looping {
            ev.len() == 0 && r.set_state is None && r.loop_seek && r.at_eos == Some(false)
        } else {
            &&& ev.len() == 2
            &&& is_eos_event(ev[0])
            &&& is_state_event(ev[1], PlayerState::Completed)
            &&& r.set_state is None && !r.loop_seek && r.at_eos == Some(true)
        },
        BusThreadEvent::Error { message } => {
            &&& ev.len() == 2
            &&& is_error_event(ev[0], message@)
            &&& is_state_event(ev[1], PlayerState::Error)
            &&& r.set_state is None && !r.loop_seek && r.at_eos is None
        },
        BusThreadEvent::Buffering { percent } => {
            &&& ev.len() == 1
            &&& is_buffering_event(ev[0], percent)
            &&& r.set_state == (if !desired_playing {
                None
            } else if percent < 100 {
                Some(PipelineState::Paused)
            } else {
                Some(PipelineState::Playing)
            })
            &&& !r.loop_seek && r.at_eos is None
        },
        BusThreadEvent::DurationChanged { duration_ms } => {
            &&& (match duration_ms {
                Some(d) => ev.len() == 1 && is_duration_event(ev[0], d),
                None => ev.len() == 0,
            })
            &&& r.set_state is None && !r.loop_seek && r.at_eos is None
        },
        BusThreadEvent::PipelineStateChanged { current, duration_ms } => {
            &&& is_state_event(ev[0], thread_state_of(current))
            &&& (match duration_ms {
                Some(d) => ev.len() == 2 && is_duration_event(ev[1], d),
                None => ev.len() == 1,
            })
            &&& r.set_state is None && !r.loop_seek && r.at_eos is None
        },
        BusThreadEvent::Other => ev.len() == 0 && r.set_state is None && !r.loop_seek && r.at_eos is None,
    }
}

/// One step of the bus thread.
pub fn bus_thread_step(event: BusThreadEvent, desired_playing: bool, looping: bool) -> (r: BusThreadReaction)
    ensures
        thread_reaction_ok(event, desired_playing, looping, r),
{
    let mut events: Vec<PlayerEvent> = Vec::new();
    match event {
        BusThreadEvent::Eos => {
            if looping {
                return BusThreadReaction { events, set_state: None, loop_seek: true, at_eos: Some(false) };
            }
            events.push(PlayerEvent::eos());
            events.push(PlayerEvent::state(PlayerState::Completed));
            BusThreadReaction { events, set_state: None, loop_seek: false, at_eos: Some(true) }
        },
        BusThreadEvent::Error { message } => {
            events.push(PlayerEvent::error(message));
            events.push(PlayerEvent::state(PlayerState::Error));
            BusThreadReaction { events, set_state: None, loop_seek: false, at_eos: None }
        },
        BusThreadEvent::Buffering { percent } => {
            events.push(PlayerEvent::buffering(percent));
            let set_state = if !desired_playing {
                None
            } else if percent < 100 {
                Some(PipelineState::Paused)
            } else {
                Some(PipelineState::Playing)
            };
            BusThreadReaction { events, set_state, loop_seek: false, at_eos: None }
        },
        BusThreadEvent::DurationChanged { duration_ms } => {
            if let Some(d) = duration_ms {
                events.push(PlayerEvent::duration(d));
            }
            BusThreadReaction { events, set_state: None, loop_seek: false, at_eos: None }
        },
        BusThreadEvent::PipelineStateChanged { current, duration_ms } => {
            events.push(PlayerEvent::state(map_state(current)));
            if let Some(d) = duration_ms {
                events.push(PlayerEvent::duration(d));
            }
            BusThreadReaction { events, set_state: None, loop_seek: false, at_eos: None }
        },
        BusThreadEvent::Other => BusThreadReaction { events, set_state: None, loop_seek: false, at_eos: None },
    }
}

/// The bus thread reports the position every 200 ms.
pub fn position_due(elapsed_ms: u64) -> (r: bool)
    ensures
        r == (elapsed_ms >= 200),
{
    elapsed_ms >= 200
}

/// Play: a player at its end first seeks back to the start; either way it
/// leaves its end. Returns whether to seek to the start before playing.
pub fn take_at_eos(at_eos: &mut bool) -> (seek_to_start: bool)
    ensures
        seek_to_start == *old(at_eos),
        !*final(at_eos),
{
    let was = *at_eos;
    *at_eos = false;
    was
}

} // verus!
