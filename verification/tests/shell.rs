use xue_hua_video_player::pipeline::{
    seek_position_ms, switch_rebuilds_shell, PipelineCapabilities, PipelineShell, PipelineState,
    RotationTarget, SourceKind,
};
use xue_hua_video_player::pipeline::{after_set_state, after_state_wait, SetStateReply, StateSyncError, StateSyncStep};

fn uri_shell(uri: Option<&str>) -> PipelineShell {
    let mut shell = PipelineShell::new_uri();
    if let Some(uri) = uri {
        shell.set_uri(uri.to_string());
    }
    shell
}

#[test]
fn has_pending_media_asset_with_key() {
    let shell = PipelineShell::new_asset(Some("assets/sample.mp4".to_string()));
    assert!(shell.has_pending_media());
}

#[test]
fn has_pending_media_asset_without_key() {
    let shell = PipelineShell::new_asset(None);
    assert!(!shell.has_pending_media());
}

#[test]
fn has_pending_media_asset_empty_key() {
    let shell = PipelineShell::new_asset(Some(String::new()));
    assert!(!shell.has_pending_media());
}

#[test]
fn has_pending_media_uri_unset() {
    let shell = uri_shell(None);
    assert!(!shell.has_pending_media());
}

#[test]
fn has_pending_media_uri_set() {
    let shell = uri_shell(Some("https://example.com/video.mp4"));
    assert!(shell.has_pending_media());
}

#[test]
fn source_kind_accessors() {
    let uri = PipelineShell::new_uri();
    assert!(uri.is_uri());
    assert_eq!(uri.source_kind(), SourceKind::Uri);
    assert!(uri.asset_key().is_none());

    let asset = PipelineShell::new_asset(Some("assets/x.mp4".to_string()));
    assert!(!asset.is_uri());
    assert_eq!(asset.asset_key(), Some("assets/x.mp4"));
}

#[test]
fn snapshot_reflects_has_pending_media() {
    let shell = uri_shell(Some("file:///tmp/x.mp4"));
    let snap = shell.snapshot(PipelineState::Null, PipelineState::VoidPending);
    assert!(snap.has_pending_media);
    assert_eq!(snap.current, PipelineState::Null);
}

#[test]
fn capabilities_follow_source_kind() {
    assert_eq!(
        PipelineShell::new_uri().capabilities(),
        PipelineCapabilities { seek: true, tracks: true, orientation: true }
    );
    assert_eq!(
        PipelineShell::new_asset(None).capabilities(),
        PipelineCapabilities { seek: false, tracks: false, orientation: false }
    );
    assert_eq!(PipelineCapabilities::from_source_kind(SourceKind::Uri), PipelineCapabilities::playbin());
    assert_eq!(PipelineCapabilities::from_source_kind(SourceKind::Asset), PipelineCapabilities::appsrc());
}

#[test]
fn rotation_pause_and_target() {
    let playbin = PipelineShell::new_uri();
    let asset = PipelineShell::new_asset(Some("a".to_string()));
    assert!(playbin.rotation_needs_pause(PipelineState::Playing));
    assert!(!playbin.rotation_needs_pause(PipelineState::Paused));
    assert!(!asset.rotation_needs_pause(PipelineState::Playing));
    assert_eq!(playbin.rotation_target(false, 90), RotationTarget::Playbin);
    assert_eq!(asset.rotation_target(true, 0), RotationTarget::Flip { flush: true });
    assert_eq!(asset.rotation_target(true, 90), RotationTarget::Flip { flush: false });
    assert_eq!(asset.rotation_target(false, 90), RotationTarget::Nothing);
}

#[test]
fn switch_rebuild_rules() {
    assert!(!switch_rebuilds_shell(SourceKind::Uri, SourceKind::Uri));
    assert!(switch_rebuilds_shell(SourceKind::Asset, SourceKind::Uri));
    assert!(switch_rebuilds_shell(SourceKind::Uri, SourceKind::Asset));
    assert!(switch_rebuilds_shell(SourceKind::Asset, SourceKind::Asset));
}

#[test]
fn seek_position_clamps_negative() {
    assert_eq!(seek_position_ms(-5), 0);
    assert_eq!(seek_position_ms(0), 0);
    assert_eq!(seek_position_ms(1500), 1500);
}

#[test]
fn synchronous_state_change_outcomes() {
    assert_eq!(after_set_state(PipelineState::Paused, SetStateReply::Success), StateSyncStep::Done);
    assert_eq!(after_set_state(PipelineState::Paused, SetStateReply::InProgress), StateSyncStep::WaitForState);
    assert_eq!(
        after_set_state(PipelineState::Paused, SetStateReply::Failed),
        StateSyncStep::Failed(StateSyncError::SetStateFailed { target: PipelineState::Paused })
    );
    assert_eq!(after_state_wait(PipelineState::Playing, true, PipelineState::Playing), Ok(()));
    assert_eq!(
        after_state_wait(PipelineState::Playing, true, PipelineState::Paused),
        Err(StateSyncError::NotReached { target: PipelineState::Playing, current: PipelineState::Paused })
    );
    assert_eq!(
        after_state_wait(PipelineState::Playing, false, PipelineState::Playing),
        Err(StateSyncError::GetStateFailed { target: PipelineState::Playing })
    );
}
