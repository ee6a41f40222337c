use xue_hua_video_player::frame::{FrameSink, FrameSinkRegistry, VideoFrame};
use xue_hua_video_player::frame::FrameBuffer;

fn frame(width: i32, height: i32, stride: i32, data: Vec<u8>) -> VideoFrame {
    VideoFrame { width, height, stride, data }
}

#[test]
fn empty_sink_copies_nothing() {
    let sink: FrameSink<u32> = FrameSink::new();
    let mut dst = [7u8; 4];
    assert_eq!(sink.copy_latest(&mut dst), None);
    assert_eq!(dst, [7u8; 4]);
    assert_eq!(sink.latest_geometry(), None);
}

#[test]
fn stored_frame_reads_back() {
    let mut sink: FrameSink<u32> = FrameSink::new();
    assert_eq!(sink.store_frame(frame(1, 1, 4, vec![1, 2, 3, 4])), None);
    let mut dst = [9u8; 6];
    assert_eq!(sink.copy_latest(&mut dst), Some((1, 1, 4)));
    assert_eq!(dst, [1, 2, 3, 4, 9, 9]);
    assert_eq!(sink.latest_geometry(), Some((1, 1, 4, 4)));
}

#[test]
fn short_buffer_is_refused_untouched() {
    let mut sink: FrameSink<u32> = FrameSink::new();
    sink.store_frame(frame(2, 1, 8, vec![5; 8]));
    let mut dst = [0u8; 7];
    assert_eq!(sink.copy_latest(&mut dst), None);
    assert_eq!(dst, [0u8; 7]);
}

#[test]
fn newest_frame_wins_and_callback_is_returned() {
    let mut sink: FrameSink<u32> = FrameSink::new();
    sink.set_callback(42);
    assert_eq!(sink.store_frame(frame(1, 1, 4, vec![1; 4])), Some(42));
    assert_eq!(sink.store_frame(frame(2, 1, 8, vec![2; 8])), Some(42));
    assert_eq!(sink.latest_geometry(), Some((2, 1, 8, 8)));
    sink.clear_callback();
    assert_eq!(sink.store_frame(frame(1, 1, 4, vec![3; 4])), None);
}

#[test]
fn registry_register_lookup_unregister() {
    let mut registry: FrameSinkRegistry<&'static str> = FrameSinkRegistry::new();
    assert_eq!(registry.frame_sink_for(1), None);
    registry.register_frame_sink(1, "first");
    registry.register_frame_sink(2, "second");
    assert_eq!(registry.frame_sink_for(1), Some(&"first"));
    registry.register_frame_sink(1, "replaced");
    assert_eq!(registry.frame_sink_for(1), Some(&"replaced"));
    registry.unregister_frame_sink(1);
    assert_eq!(registry.frame_sink_for(1), None);
    assert_eq!(registry.frame_sink_for(2), Some(&"second"));
}

#[test]
fn texture_payload_is_latest_frame_or_transparent_pixel() {
    let mut buffer = FrameBuffer::new();
    assert_eq!(buffer.payload(), (1, 1, vec![0, 0, 0, 0]));
    buffer.set(2, 1, vec![1, 2, 3, 4, 5, 6, 7, 8]);
    assert_eq!(buffer.payload(), (2, 1, vec![1, 2, 3, 4, 5, 6, 7, 8]));
    buffer.set(1, 1, vec![9, 9, 9, 9]);
    assert_eq!(buffer.payload(), (1, 1, vec![9, 9, 9, 9]));
    buffer.clear();
    assert_eq!(buffer.payload(), (1, 1, vec![0, 0, 0, 0]));
}
