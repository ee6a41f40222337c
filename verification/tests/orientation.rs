use xue_hua_video_player::orientation::{
    direction_degrees, rotate_method, rotate_video_direction, rotation_needs_update,
    rotation_z_degrees, validate_rotate_degrees, InternalAspectRatioMode,
    InternalVideoOrientationConfig, InvalidRotation, VideoDirection,
};
use xue_hua_video_player::orientation::gltransformation_rotation_z;
use xue_hua_video_player::orientation::{videoflip_update, FlipUpdate};

#[test]
fn rotate_method_maps_four_corners() {
    assert_eq!(rotate_method(0), "none");
    assert_eq!(rotate_method(90), "clockwise");
    assert_eq!(rotate_method(180), "rotate-180");
    assert_eq!(rotate_method(270), "counterclockwise");
}

#[test]
fn rotate_video_direction_maps_four_corners() {
    assert_eq!(rotate_video_direction(0), VideoDirection::Identity);
    assert_eq!(rotate_video_direction(90), VideoDirection::Rotate90Right);
    assert_eq!(rotate_video_direction(180), VideoDirection::Rotate180);
    assert_eq!(rotate_video_direction(270), VideoDirection::Rotate90Left);
}

#[test]
fn rotation_round_trips_through_direction() {
    for d in [0, 90, 180, 270] {
        let dir = rotate_video_direction(d);
        assert_eq!(direction_degrees(dir), d);
        assert!(!rotation_needs_update(Some(direction_degrees(dir)), d));
    }
    assert!(rotation_needs_update(None, 0));
    assert_eq!(direction_degrees(VideoDirection::Other), 0);
}

#[test]
fn rotate_degrees_validation() {
    assert_eq!(validate_rotate_degrees(180), Ok(180));
    assert_eq!(validate_rotate_degrees(45), Err(InvalidRotation { degrees: 45 }));
    assert_eq!(validate_rotate_degrees(-90), Err(InvalidRotation { degrees: -90 }));
}

#[test]
fn rotation_z_maps_to_clockwise_degrees() {
    assert_eq!(rotation_z_degrees(-90), 90);
    assert_eq!(rotation_z_degrees(180), 180);
    assert_eq!(rotation_z_degrees(-180), 180);
    assert_eq!(rotation_z_degrees(90), 270);
    assert_eq!(rotation_z_degrees(-270), 270);
    assert_eq!(rotation_z_degrees(0), 0);
    assert_eq!(rotation_z_degrees(45), 0);
}

#[test]
fn orientation_method_names() {
    let mut c = InternalVideoOrientationConfig::default();
    assert_eq!(c.method_name(), "none");
    c.flip_horizontal = true;
    assert_eq!(c.method_name(), "horizontal-flip");
    c.flip_horizontal = false;
    c.flip_vertical = true;
    assert_eq!(c.method_name(), "vertical-flip");
    c.flip_vertical = false;
    c.rotate_degrees = 270;
    assert_eq!(c.method_name(), "counterclockwise");
    c.flip_horizontal = true;
    assert_eq!(c.method_name(), "automatic");
}

#[test]
fn aspect_modes_set_sink_properties() {
    assert_eq!(InternalAspectRatioMode::default(), InternalAspectRatioMode::Fit);
    let fit = InternalAspectRatioMode::Fit.sink_settings();
    assert!(fit.force_aspect_ratio && fit.reset_pixel_aspect_ratio);
    let fill = InternalAspectRatioMode::Fill.sink_settings();
    assert!(!fill.force_aspect_ratio && !fill.reset_pixel_aspect_ratio);
    let stretch = InternalAspectRatioMode::Stretch.sink_settings();
    assert!(!stretch.force_aspect_ratio);
}

#[test]
fn gltransformation_rotation_round_trips() {
    assert_eq!(gltransformation_rotation_z(90), -90);
    assert_eq!(gltransformation_rotation_z(180), 180);
    assert_eq!(gltransformation_rotation_z(270), -270);
    assert_eq!(gltransformation_rotation_z(0), 0);
    for d in [0, 90, 180, 270] {
        assert_eq!(rotation_z_degrees(gltransformation_rotation_z(d)), d);
    }
}

#[test]
fn videoflip_updates() {
    assert_eq!(videoflip_update(Some(90), 90, true, true), FlipUpdate::Unchanged);
    assert_eq!(
        videoflip_update(Some(0), 180, true, true),
        FlipUpdate::SetDirection(VideoDirection::Rotate180)
    );
    assert_eq!(videoflip_update(None, 270, false, true), FlipUpdate::SetMethod);
    assert_eq!(videoflip_update(None, 270, false, false), FlipUpdate::NoProperty);
}
