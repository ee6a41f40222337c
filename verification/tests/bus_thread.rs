use xue_hua_video_player::events::{PlayerEventKind, PlayerState};
use xue_hua_video_player::bus_thread::{
    bus_thread_step, position_due, take_at_eos, map_state, BusThreadEvent,
};
use xue_hua_video_player::pipeline::PipelineState;

#[test]
fn bus_thread_eos_looping_seeks_back() {
    let r = bus_thread_step(BusThreadEvent::Eos, true, true);
    assert!(r.events.is_empty());
    assert!(r.loop_seek);
    assert_eq!(r.at_eos, Some(false));
}

#[test]
fn bus_thread_eos_completes() {
    let r = bus_thread_step(BusThreadEvent::Eos, true, false);
    assert_eq!(r.events.len(), 2);
    assert_eq!(r.events[0].kind, PlayerEventKind::Eos);
    assert_eq!(r.events[1].state, PlayerState::Completed);
    assert_eq!(r.at_eos, Some(true));
    assert!(!r.loop_seek);
}

#[test]
fn bus_thread_error_reports_text() {
    let r = bus_thread_step(BusThreadEvent::Error { message: "decoder failed".into() }, false, false);
    assert_eq!(r.events[0].message, "decoder failed");
    assert_eq!(r.events[1].state, PlayerState::Error);
}

#[test]
fn bus_thread_buffering_drives_pipeline_only_when_playing_wanted() {
    let r = bus_thread_step(BusThreadEvent::Buffering { percent: 40 }, true, false);
    assert_eq!(r.events[0].buffering_percent, 40);
    assert_eq!(r.set_state, Some(PipelineState::Paused));
    let r = bus_thread_step(BusThreadEvent::Buffering { percent: 100 }, true, false);
    assert_eq!(r.set_state, Some(PipelineState::Playing));
    let r = bus_thread_step(BusThreadEvent::Buffering { percent: 40 }, false, false);
    assert_eq!(r.set_state, None);
    assert_eq!(r.events.len(), 1);
}

#[test]
fn bus_thread_state_and_duration() {
    let r = bus_thread_step(
        BusThreadEvent::PipelineStateChanged { current: PipelineState::Playing, duration_ms: Some(9000) },
        false,
        false,
    );
    assert_eq!(r.events.len(), 2);
    assert_eq!(r.events[0].state, PlayerState::Playing);
    assert_eq!(r.events[1].duration_ms, 9000);
    let r = bus_thread_step(BusThreadEvent::DurationChanged { duration_ms: None }, false, false);
    assert!(r.events.is_empty());
    let r = bus_thread_step(BusThreadEvent::Other, true, true);
    assert!(r.events.is_empty() && r.set_state.is_none() && !r.loop_seek);
    assert_eq!(map_state(PipelineState::VoidPending), PlayerState::Idle);
    assert_eq!(map_state(PipelineState::Null), PlayerState::Stopped);
}

#[test]
fn bus_thread_play_and_poll() {
    let mut at_eos = true;
    assert!(take_at_eos(&mut at_eos));
    assert!(!at_eos);
    assert!(!take_at_eos(&mut at_eos));
    assert!(position_due(200));
    assert!(!position_due(199));
}
