use xue_hua_video_player::metadata::{hdr_format_for_transfer, InternalVideoMetadata, VideoParams};

fn params(width: u32, height: u32, par: (i32, i32), fps: (i32, i32)) -> VideoParams {
    VideoParams {
        width,
        height,
        fps_numer: fps.0,
        fps_denom: fps.1,
        par_numer: par.0,
        par_denom: par.1,
        interlaced: false,
        color_matrix: "Bt709".to_string(),
        color_range: "Range16_235".to_string(),
        hdr_format: String::new(),
    }
}

#[test]
fn square_pixels_keep_size_as_display_aspect() {
    let m = InternalVideoMetadata::from_video_params(params(1920, 1080, (1, 1), (30000, 1001)));
    assert_eq!((m.width, m.height), (1920, 1080));
    assert_eq!((m.display_aspect_width, m.display_aspect_height), (1920, 1080));
    assert_eq!((m.fps_numer, m.fps_denom), (30000, 1001));
    assert_eq!(m.display_aspect_fraction(), (1920, 1080));
    assert_eq!(m.color_matrix, "Bt709");
}

#[test]
fn anamorphic_pixels_scale_display_aspect() {
    let m = InternalVideoMetadata::from_video_params(params(720, 576, (16, 15), (25, 1)));
    assert_eq!((m.display_aspect_width, m.display_aspect_height), (720 * 16, 576 * 15));
    assert_eq!((m.pixel_aspect_width, m.pixel_aspect_height), (16, 15));
}

#[test]
fn zero_height_and_unknown_fps() {
    let m = InternalVideoMetadata::from_video_params(params(640, 0, (0, 0), (0, 0)));
    assert_eq!(m.height, 1);
    assert_eq!((m.fps_numer, m.fps_denom), (0, 1));
    assert_eq!(m.pixel_aspect_height, 1);
    assert_eq!((m.display_aspect_width, m.display_aspect_height), (640, 1));
}

#[test]
fn display_aspect_fallbacks() {
    let empty = InternalVideoMetadata::default();
    assert_eq!(empty.display_aspect_fraction(), (16, 9));
    let mut m = InternalVideoMetadata::empty();
    m.width = 4;
    m.height = 3;
    assert_eq!(m.display_aspect_fraction(), (4, 3));
}

#[test]
fn hdr_labels_from_transfer_names() {
    assert_eq!(hdr_format_for_transfer("Smpte2084"), "HDR10");
    assert_eq!(hdr_format_for_transfer("Bt202012"), "HDR10");
    assert_eq!(hdr_format_for_transfer("AribStdB67"), "HLG");
    assert_eq!(hdr_format_for_transfer("B67"), "HLG");
    assert_eq!(hdr_format_for_transfer("Bt709"), "");
    assert_eq!(hdr_format_for_transfer(""), "");
}
