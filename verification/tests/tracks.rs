use xue_hua_video_player::events::{MediaTrack, TrackType};
use xue_hua_video_player::tracks::{
    decimal_string, default_track_label, mark_selected_streams, read_cached_tracks,
    selection_stream_ids, stream_type_to_track_type, tracks_from_collection, StreamInfo,
    StreamTypeFlags, TrackCache,
};

const AUDIO: StreamTypeFlags = StreamTypeFlags { audio: true, video: false, text: false };
const VIDEO: StreamTypeFlags = StreamTypeFlags { audio: false, video: true, text: false };
const TEXT: StreamTypeFlags = StreamTypeFlags { audio: false, video: false, text: true };

fn stream(stream_type: StreamTypeFlags, id: Option<&str>, language: &str, title: &str) -> StreamInfo {
    StreamInfo {
        stream_type,
        stream_id: id.map(|s| s.to_string()),
        language: language.to_string(),
        title: title.to_string(),
    }
}

fn track(id: u32, track_type: TrackType, selected: bool) -> MediaTrack {
    MediaTrack {
        id,
        track_type,
        language: String::new(),
        label: String::new(),
        selected,
    }
}

#[test]
fn tracks_from_collection_maps_types_and_ids() {
    let streams = vec![stream(AUDIO, Some("audio_0"), "", ""), stream(VIDEO, Some("video_0"), "", "")];
    let cache = tracks_from_collection(&streams);
    assert_eq!(cache.tracks.len(), 2);
    assert_eq!(cache.stream_ids, vec!["audio_0", "video_0"]);

    let audio_track = cache
        .tracks
        .iter()
        .find(|t| t.track_type == TrackType::Audio)
        .expect("audio");
    assert_eq!(audio_track.id, 0);
    assert_eq!(audio_track.label, "Audio 0");

    let video_track = cache
        .tracks
        .iter()
        .find(|t| t.track_type == TrackType::Video)
        .expect("video");
    assert_eq!(video_track.id, 0);
}

#[test]
fn mark_selected_streams_updates_flags() {
    let streams = vec![stream(AUDIO, Some("audio_0"), "", "")];
    let mut cache = tracks_from_collection(&streams);
    mark_selected_streams(&["audio_0".to_string()], &mut cache);
    assert!(cache.tracks[0].selected);
}

#[test]
fn selection_stream_ids_excludes_subtitles_when_disabled() {
    let mut cache = TrackCache::default();
    cache.tracks.push(MediaTrack {
        id: 0,
        track_type: TrackType::Audio,
        language: String::new(),
        label: "a".into(),
        selected: true,
    });
    cache.stream_ids.push("audio_0".into());
    cache.tracks.push(MediaTrack {
        id: 0,
        track_type: TrackType::Subtitle,
        language: String::new(),
        label: "s".into(),
        selected: true,
    });
    cache.stream_ids.push("text_0".into());

    let ids = selection_stream_ids(&cache, None, false);
    assert_eq!(ids, vec!["audio_0"]);
}

#[test]
fn tracks_numbered_per_type_and_skip_unusable_streams() {
    let streams = vec![
        stream(AUDIO, Some("a0"), "en", "Main"),
        stream(StreamTypeFlags { audio: false, video: false, text: false }, Some("other"), "", ""),
        stream(AUDIO, Some("a1"), "fr", ""),
        stream(TEXT, Some("t0"), "de", ""),
        stream(VIDEO, None, "", ""),
        stream(VIDEO, Some(""), "", ""),
        stream(VIDEO, Some("v0"), "", ""),
    ];
    let cache = tracks_from_collection(&streams);
    assert_eq!(cache.stream_ids, vec!["a0", "a1", "t0", "v0"]);
    assert_eq!(cache.tracks[0].id, 0);
    assert_eq!(cache.tracks[0].label, "Main");
    assert_eq!(cache.tracks[0].language, "en");
    assert_eq!(cache.tracks[1].id, 1);
    assert_eq!(cache.tracks[1].label, "Audio 1");
    assert_eq!(cache.tracks[2].track_type, TrackType::Subtitle);
    assert_eq!(cache.tracks[2].label, "Subtitle 0");
    assert_eq!(cache.tracks[3].track_type, TrackType::Video);
    assert_eq!(cache.tracks[3].label, "Video 0");
    assert!(cache.tracks.iter().all(|t| !t.selected));
}

#[test]
fn stream_type_priority() {
    assert_eq!(
        stream_type_to_track_type(StreamTypeFlags { audio: true, video: true, text: true }),
        Some(TrackType::Audio)
    );
    assert_eq!(
        stream_type_to_track_type(StreamTypeFlags { audio: false, video: true, text: true }),
        Some(TrackType::Video)
    );
    assert_eq!(stream_type_to_track_type(TEXT), Some(TrackType::Subtitle));
    assert_eq!(stream_type_to_track_type(StreamTypeFlags { audio: false, video: false, text: false }), None);
}

#[test]
fn labels_and_decimals() {
    assert_eq!(decimal_string(0), "0");
    assert_eq!(decimal_string(407), "407");
    assert_eq!(decimal_string(u32::MAX), "4294967295");
    assert_eq!(default_track_label(TrackType::Subtitle, 12), "Subtitle 12");
}

#[test]
fn stream_id_lookup_and_clear() {
    let streams = vec![stream(AUDIO, Some("a0"), "", ""), stream(AUDIO, Some("a1"), "", "")];
    let mut cache = tracks_from_collection(&streams);
    assert_eq!(cache.stream_id_for(TrackType::Audio, 1), Some("a1"));
    assert_eq!(cache.stream_id_for(TrackType::Video, 0), None);
    assert_eq!(read_cached_tracks(&cache).len(), 2);
    assert_eq!(cache.tracks().len(), 2);
    cache.clear();
    assert!(read_cached_tracks(&cache).is_empty());
    assert!(cache.stream_ids.is_empty());
}

#[test]
fn selection_replaces_changed_type_and_keeps_others() {
    let mut cache = TrackCache::default();
    cache.push(track(0, TrackType::Video, true), "v0".into());
    cache.push(track(0, TrackType::Audio, true), "a0".into());
    cache.push(track(1, TrackType::Audio, false), "a1".into());
    cache.push(track(0, TrackType::Subtitle, true), "s0".into());
    let ids = selection_stream_ids(&cache, Some((TrackType::Audio, 1)), true);
    assert_eq!(ids, vec!["v0", "a1", "s0"]);
    let ids = selection_stream_ids(&cache, Some((TrackType::Audio, 1)), false);
    assert_eq!(ids, vec!["v0", "a1"]);
}

#[test]
fn selection_falls_back_to_first_video_and_audio() {
    let mut cache = TrackCache::default();
    cache.push(track(0, TrackType::Audio, false), "a0".into());
    cache.push(track(0, TrackType::Video, false), "v0".into());
    cache.push(track(0, TrackType::Subtitle, false), "s0".into());
    let ids = selection_stream_ids(&cache, None, true);
    assert_eq!(ids, vec!["v0", "a0"]);
    let ids = selection_stream_ids(&cache, Some((TrackType::Subtitle, 0)), false);
    assert_eq!(ids, vec!["v0", "a0", "s0"]);
}

#[test]
fn mark_selected_only_listed_streams() {
    let mut cache = TrackCache::default();
    cache.push(track(0, TrackType::Audio, true), "a0".into());
    cache.push(track(1, TrackType::Audio, false), "a1".into());
    mark_selected_streams(&["a1".to_string(), "zz".to_string()], &mut cache);
    assert!(!cache.tracks[0].selected);
    assert!(cache.tracks[1].selected);
}
