//! Multi-track cache for playbin3 and the stream selection sent to it.
//!
//! The cache holds the Dart-facing tracks together with the GStreamer
//! `stream-id` of each, index for index. It is built from the streams of a
//! stream collection (read by the application into [`StreamInfo`] values).

use vstd::prelude::*;

use crate::events::{MediaTrack, TrackType};

verus! {

/// The stream-type flags of a stream that matter for track mapping.
#[derive(Debug, Clone, Copy, PartialEq, Eq, Structural)]
pub struct StreamTypeFlags {
    pub audio: bool,
    pub video: bool,
    pub text: bool,
}

/// One stream of a stream collection, as plain values: its type flags, its
/// `stream-id` (if any), and the language and title tags (empty when absent).
#[derive(Debug, Clone)]
pub struct StreamInfo {
    pub stream_type: StreamTypeFlags,
    pub stream_id: Option<String>,
    pub language: String,
    pub title: String,
}

/// Audio wins over video, video over text; other streams are not tracks.
pub open spec fn track_type_of(f: StreamTypeFlags) -> Option<TrackType> {
    if f.audio {
        Some(TrackType::Audio)
    } else if f.video {
        Some(TrackType::Video)
    } else if f.text {
        Some(TrackType::Subtitle)
    } else {
        None
    }
}

pub fn stream_type_to_track_type(f: StreamTypeFlags) -> (r: Option<TrackType>)
    ensures
        r == track_type_of(f),
{
    if f.audio {
        Some(TrackType::Audio)
    } else if f.video {
        Some(TrackType::Video)
    } else if f.text {
        Some(TrackType::Subtitle)
    } else {
        None
    }
}

/// The character of decimal digit `d`.
pub open spec fn digit_char(d: nat) -> char {
    if d == 0 { '0' }
    else if d == 1 { '1' }
    else if d == 2 { '2' }
    else if d == 3 { '3' }
    else if d == 4 { '4' }
    else if d == 5 { '5' }
    else if d == 6 { '6' }
    else if d == 7 { '7' }
    else if d == 8 { '8' }
    else { '9' }
}

/// The decimal notation of `n`, without leading zeros.
pub open spec fn decimal(n: nat) -> Seq<char>
    decreases n,
{
    if n < 10 {
        seq![digit_char(n)]
    } else {
        decimal(n / 10).push(digit_char(n % 10))
    }
}

fn digit_str(d: u32) -> (s: &'static str)
    requires
        d < 10,
    ensures
        s@ == seq![digit_char(d as nat)],
{
    if d == 0 {
        proof { reveal_strlit("0"); }
        "0"
    } else if d == 1 {
        proof { reveal_strlit("1"); }
        "1"
    } else if d == 2 {
        proof { reveal_strlit("2"); }
        "2"
    } else if d == 3 {
        proof { reveal_strlit("3"); }
        "3"
    } else if d == 4 {
        proof { reveal_strlit("4"); }
        "4"
    } else if d == 5 {
        proof { reveal_strlit("5"); }
        "5"
    } else if d == 6 {
        proof { reveal_strlit("6"); }
        "6"
    } else if d == 7 {
        proof { reveal_strlit("7"); }
        "7"
    } else if d == 8 {
        proof { reveal_strlit("8"); }
        "8"
    } else {
        proof { reveal_strlit("9"); }
        "9"
    }
}

/// Decimal notation of `n`.
pub fn decimal_string(n: u32) -> (s: String)
    ensures
        s@ == decimal(n as nat),
    decreases n,
{
    if n < 10 {
        String::from_str(digit_str(n))
    } else {
        let mut s = decimal_string(n / 10);
        s.append(digit_str(n % 10));
        s
    }
}

/// The name a track type is labelled with.
pub open spec fn kind_label(t: TrackType) -> Seq<char> {
    match t {
        TrackType::Audio => seq!['A', 'u', 'd', 'i', 'o'],
        TrackType::Video => seq!['V', 'i', 'd', 'e', 'o'],
        TrackType::Subtitle => seq!['S', 'u', 'b', 't', 'i', 't', 'l', 'e'],
    }
}

fn kind_label_str(t: TrackType) -> (s: &'static str)
    ensures
        s@ == kind_label(t),
{
    match t {
        TrackType::Audio => {
            proof { reveal_strlit("Audio"); }
            "Audio"
        },
        TrackType::Video => {
            proof { reveal_strlit("Video"); }
            "Video"
        },
        TrackType::Subtitle => {
            proof { reveal_strlit("Subtitle"); }
            "Subtitle"
        },
    }
}

/// The fallback label of an untitled track: its type name, a space, its id.
pub open spec fn default_label(t: TrackType, id: u32) -> Seq<char> {
    kind_label(t) + seq![' '] + decimal(id as nat)
}

pub fn default_track_label(t: TrackType, id: u32) -> (s: String)
    ensures
        s@ == default_label(t, id),
{
    let mut s = String::from_str(kind_label_str(t));
    proof { reveal_strlit(" "); }
    s.append(" ");
    let digits = decimal_string(id);
    s.append(digits.as_str());
    s
}

/// Cached playbin3 tracks plus their GStreamer `stream-id` values, index for
/// index.
#[derive(Debug, Clone)]
pub struct TrackCache {
    pub tracks: Vec<MediaTrack>,
    pub stream_ids: Vec<String>,
}

impl TrackCache {
    /// Every track has its stream id.
    pub open spec fn wf(&self) -> bool {
        self.tracks@.len() == self.stream_ids@.len()
    }

    pub fn new() -> (c: Self)
        ensures
            c.wf(),
            c.tracks@.len() == 0,
    {
        TrackCache { tracks: Vec::new(), stream_ids: Vec::new() }
    }

    /// Read-only access to the cached tracks.
    pub fn tracks(&self) -> (t: &[MediaTrack])
        ensures
            t@ == self.tracks@,
    {
        self.tracks.as_slice()
    }

    /// Clears the cache (on a new load).
    pub fn clear(&mut self)
        ensures
            final(self).wf(),
            final(self).tracks@.len() == 0,
    {
        self.tracks.clear();
        self.stream_ids.clear();
    }

    /// Appends a track with its stream id.
    pub fn push(&mut self, track: MediaTrack, stream_id: String)
        requires
            old(self).wf(),
        ensures
            final(self).wf(),
            final(self).tracks@ == old(self).tracks@.push(track),
            final(self).stream_ids@ == old(self).stream_ids@.push(stream_id),
    {
        self.tracks.push(track);
        self.stream_ids.push(stream_id);
    }

    /// The stream id of the first track with this type and logical id.
    pub fn stream_id_for(&self, track_type: TrackType, id: u32) -> (r: Option<&str>)
        requires
            self.wf(),
        ensures
            match first_index(self.tracks@, track_is(track_type, id)) {
                Some(j) => r is Some && r->0@ == self.stream_ids@[j]@,
                None => r is None,
            },
    {
        match find_track(&self.tracks, track_type, id) {
            Some(j) => Some(self.stream_ids[j].as_str()),
            None => None,
        }
    }
}

impl Default for TrackCache {
    /// An empty cache.
    fn default() -> (c: Self)
        ensures
            c.wf(),
            c.tracks@.len() == 0,
    {
        TrackCache::new()
    }
}

/// `j` is the first index of `s` where `p` holds.
pub open spec fn is_first<T>(s: Seq<T>, p: spec_fn(T) -> bool, j: int) -> bool {
    &&& 0 <= j < s.len()
    &&& p(s[j])
    &&& forall|k: int| 0 <= k < j ==> !p(#[trigger] s[k])
}

/// The first index of `s` where `p` holds, if any.
pub open spec fn first_index<T>(s: Seq<T>, p: spec_fn(T) -> bool) -> Option<int> {
    if exists|j: int| is_first(s, p, j) {
        Some(choose|j: int| is_first(s, p, j))
    } else {
        None
    }
}

/// A position where `p` holds has a first such position.
proof fn lemma_first_exists<T>(s: Seq<T>, p: spec_fn(T) -> bool, j: int)
    requires
        0 <= j < s.len(),
        p(s[j]),
    ensures
        exists|f: int| is_first(s, p, f),
    decreases j,
{
    if exists|k: int| 0 <= k < j && p(s[k]) {
        let k = choose|k: int| 0 <= k < j && p(s[k]);
        lemma_first_exists(s, p, k);
    } else {
        assert(is_first(s, p, j));
    }
}

/// The first position is unique.
proof fn lemma_first_unique<T>(s: Seq<T>, p: spec_fn(T) -> bool, a: int, b: int)
    requires
        is_first(s, p, a),
        is_first(s, p, b),
    ensures
        a == b,
{
    if a < b {
        assert(!p(s[a]));
    } else if b < a {
        assert(!p(s[b]));
    }
}

/// A found first position is what `first_index` names.
proof fn lemma_first_index_is<T>(s: Seq<T>, p: spec_fn(T) -> bool, j: int)
    requires
        is_first(s, p, j),
    ensures
        first_index(s, p) == Some(j),
{
    let c = choose|f: int| is_first(s, p, f);
    lemma_first_unique(s, p, c, j);
}

/// With no position where `p` holds, there is no first one.
proof fn lemma_first_none<T>(s: Seq<T>, p: spec_fn(T) -> bool)
    requires
        forall|k: int| 0 <= k < s.len() ==> !p(#[trigger] s[k]),
    ensures
        first_index(s, p) is None,
{
}

/// The track has this type and logical id.
pub open spec fn track_is(track_type: TrackType, id: u32) -> spec_fn(MediaTrack) -> bool {
    |t: MediaTrack| t.track_type == track_type && t.id == id
}

/// Index of the first track with this type and id.
fn find_track(tracks: &Vec<MediaTrack>, track_type: TrackType, id: u32) -> (r: Option<usize>)
    ensures
        match r {
            Some(j) => first_index(tracks@, track_is(track_type, id))
                == Some(j as int) && j < tracks@.len(),
            None => first_index(tracks@, track_is(track_type, id)) is None,
        },
{
    let ghost p = track_is(track_type, id);
    let mut j: usize = 0;
    while j < tracks.len()
        invariant
            j <= tracks@.len(),
            p == track_is(track_type, id),
            forall|k: int| 0 <= k < j ==> !p(#[trigger] tracks@[k]),
        decreases tracks@.len() - j,
    {
        if tracks[j].track_type == track_type && tracks[j].id == id {
            proof {
                assert(p(tracks@[j as int]));
                assert(is_first(tracks@, p, j as int));
                lemma_first_index_is(tracks@, p, j as int);
            }
            return Some(j);
        }
        j = j + 1;
    }
    proof { lemma_first_none(tracks@, p); }
    None
}


/// A stream becomes a track when it has a track type and a non-empty id.
pub open spec fn keeps(s: StreamInfo) -> bool {
    &&& track_type_of(s.stream_type) is Some
    &&& s.stream_id is Some
    &&& s.stream_id->0@.len() > 0
}

/// Indices, below `n`, of the streams that become tracks, in order.
pub open spec fn kept(s: Seq<StreamInfo>, n: int) -> Seq<int>
    decreases n,
{
    if n <= 0 {
        Seq::empty()
    } else if keeps(s[n - 1]) {
        kept(s, n - 1).push(n - 1)
    } else {
        kept(s, n - 1)
    }
}

/// How many of the first `n` streams become tracks of type `t`.
pub open spec fn type_count(s: Seq<StreamInfo>, n: int, t: TrackType) -> nat
    decreases n,
{
    if n <= 0 {
        0
    } else if keeps(s[n - 1]) && track_type_of(s[n - 1].stream_type) == Some(t) {
        type_count(s, n - 1, t) + 1
    } else {
        type_count(s, n - 1, t)
    }
}

/// Track `tr` with stream id `sid` is what stream `k` of `s` maps to: its type,
/// its per-type index as id, its language, its title (or the default label)
/// as label, not selected.
pub open spec fn track_from_stream(s: Seq<StreamInfo>, k: int, tr: MediaTrack, sid: String) -> bool {
    let t = track_type_of(s[k].stream_type)->0;
    &&& tr.track_type == t
    &&& tr.id == type_count(s, k, t)
    &&& tr.language@ == s[k].language@
    &&& tr.label@ == (if s[k].title@.len() > 0 { s[k].title@ } else { default_label(t, tr.id) })
    &&& !tr.selected
    &&& sid@ == s[k].stream_id->0@
}

/// Builds the cache from the streams of a playbin3 stream collection: one
/// track per stream that has a track type and a non-empty id, numbered per
/// type in collection order.
pub fn tracks_from_collection(streams: &[StreamInfo]) -> (c: TrackCache)
    requires
        streams@.len() <= u32::MAX,
    ensures
        c.wf(),
        c.tracks@.len() == kept(streams@, streams@.len() as int).len(),
        forall|j: int| 0 <= j < c.tracks@.len() ==>
            track_from_stream(streams@, #[trigger] kept(streams@, streams@.len() as int)[j],
                c.tracks@[j], c.stream_ids@[j]),
{
    let mut cache = TrackCache::new();
    let mut audio_idx: u32 = 0;
    let mut video_idx: u32 = 0;
    let mut text_idx: u32 = 0;
    let mut i: usize = 0;
    while i < streams.len()
        invariant
            i <= streams@.len(),
            streams@.len() <= u32::MAX,
            cache.wf(),
            cache.tracks@.len() == kept(streams@, i as int).len(),
            forall|j: int| 0 <= j < cache.tracks@.len() ==>
                track_from_stream(streams@, #[trigger] kept(streams@, i as int)[j],
                    cache.tracks@[j], cache.stream_ids@[j]),
            audio_idx == type_count(streams@, i as int, TrackType::Audio),
            video_idx == type_count(streams@, i as int, TrackType::Video),
            text_idx == type_count(streams@, i as int, TrackType::Subtitle),
            audio_idx <= i,
            video_idx <= i,
            text_idx <= i,
        decreases streams@.len() - i,
    {
        let stream = &streams[i];
        let ghost old_kept = kept(streams@, i as int);
        let ghost old_tracks = cache.tracks@;
        let ghost old_ids = cache.stream_ids@;
        let track_type = stream_type_to_track_type(stream.stream_type);
        let keep = match (&track_type, &stream.stream_id) {
            (Some(_), Some(sid)) => !sid.as_str().is_empty(),
            _ => false,
        };
        assert(keep == keeps(streams@[i as int]));
        if keep {
            let t = match track_type {
                Some(t) => t,
                None => TrackType::Audio,
            };
            let sid = match &stream.stream_id {
                Some(sid) => sid.clone(),
                None => String::new(),
            };
            let id = match t {
                TrackType::Audio => {
                    let id = audio_idx;
                    audio_idx = audio_idx + 1;
                    id
                },
                TrackType::Video => {
                    let id = video_idx;
                    video_idx = video_idx + 1;
                    id
                },
                TrackType::Subtitle => {
                    let id = text_idx;
                    text_idx = text_idx + 1;
                    id
                },
            };
            let label = if stream.title.as_str().is_empty() {
                default_track_label(t, id)
            } else {
                stream.title.clone()
            };
            let track = MediaTrack {
                id,
                track_type: t,
                language: stream.language.clone(),
                label,
                selected: false,
            };
            cache.push(track, sid);
            proof {
                assert(kept(streams@, i + 1) == old_kept.push(i as int));
                assert forall|j: int| 0 <= j < cache.tracks@.len() implies
                    track_from_stream(streams@, #[trigger] kept(streams@, i + 1)[j],
                        cache.tracks@[j], cache.stream_ids@[j]) by {
                    if j < old_tracks.len() {
                        assert(kept(streams@, i + 1)[j] == old_kept[j]);
                        assert(cache.tracks@[j] == old_tracks[j]);
                        assert(cache.stream_ids@[j] == old_ids[j]);
                    }
                }
            }
        } else {
            proof {
                assert(kept(streams@, i + 1) == old_kept);
            }
        }
        i = i + 1;
    }
    cache
}

/// A copy of a track, field for field.
pub fn clone_track(t: &MediaTrack) -> (r: MediaTrack)
    ensures
        r == *t,
{
    MediaTrack {
        id: t.id,
        track_type: t.track_type,
        language: t.language.clone(),
        label: t.label.clone(),
        selected: t.selected,
    }
}

/// A copy of the cached tracks (empty until the first stream collection).
pub fn read_cached_tracks(cache: &TrackCache) -> (r: Vec<MediaTrack>)
    ensures
        r@ == cache.tracks@,
{
    let mut r: Vec<MediaTrack> = Vec::new();
    let mut i: usize = 0;
    while i < cache.tracks.len()
        invariant
            i <= cache.tracks@.len(),
            r@ == cache.tracks@.subrange(0, i as int),
        decreases cache.tracks@.len() - i,
    {
        r.push(clone_track(&cache.tracks[i]));
        i = i + 1;
    }
    assert(cache.tracks@.subrange(0, cache.tracks@.len() as int) =~= cache.tracks@);
    r
}

/// `id` is one of `ids`, compared by characters.
pub open spec fn listed(ids: Seq<String>, id: String) -> bool {
    exists|k: int| 0 <= k < ids.len() && (#[trigger] ids[k])@ == id@
}

fn is_listed(ids: &[String], id: &String) -> (r: bool)
    ensures
        r == listed(ids@, *id),
{
    let mut k: usize = 0;
    while k < ids.len()
        invariant
            k <= ids@.len(),
            forall|m: int| 0 <= m < k ==> (#[trigger] ids@[m])@ != id@,
        decreases ids@.len() - k,
    {
        if ids[k].eq(id) {
            return true;
        }
        k = k + 1;
    }
    false
}

/// Marks as selected exactly the tracks whose stream id is among
/// `selected_ids` (from a streams-selected message); nothing else changes.
pub fn mark_selected_streams(selected_ids: &[String], cache: &mut TrackCache)
    requires
        old(cache).wf(),
    ensures
        final(cache).wf(),
        final(cache).stream_ids@ == old(cache).stream_ids@,
        final(cache).tracks@.len() == old(cache).tracks@.len(),
        forall|j: int| 0 <= j < final(cache).tracks@.len() ==>
            #[trigger] final(cache).tracks@[j] == (MediaTrack {
                selected: listed(selected_ids@, old(cache).stream_ids@[j]),
                ..old(cache).tracks@[j]
            }),
{
    let ghost old_tracks = cache.tracks@;
    let mut j: usize = 0;
    while j < cache.tracks.len()
        invariant
            cache.wf(),
            j <= cache.tracks@.len(),
            cache.stream_ids@ == old(cache).stream_ids@,
            cache.tracks@.len() == old_tracks.len(),
            old_tracks == old(cache).tracks@,
            forall|m: int| 0 <= m < cache.tracks@.len() ==>
                #[trigger] cache.tracks@[m] == (if m < j {
                    MediaTrack { selected: listed(selected_ids@, old(cache).stream_ids@[m]), ..old_tracks[m] }
                } else {
                    old_tracks[m]
                }),
        decreases cache.tracks@.len() - j,
    {
        let sel = is_listed(selected_ids, &cache.stream_ids[j]);
        cache.tracks[j].selected = sel;
        j = j + 1;
    }
}


/// The requested track change (type and logical id), if any.
pub open spec fn change_matches(t: MediaTrack, change: Option<(TrackType, u32)>) -> bool {
    change is Some && t.track_type == (change->0).0 && t.id == (change->0).1
}

/// The change targets type `ty`.
pub open spec fn targets(change: Option<(TrackType, u32)>, ty: TrackType) -> bool {
    change is Some && (change->0).0 == ty
}

/// A track that keeps its type's slot: already selected, of type `ty`, not the
/// changed track, and not a subtitle when subtitles are left out.
pub open spec fn eligible(t: MediaTrack, ty: TrackType, change: Option<(TrackType, u32)>, include_subtitles: bool) -> bool {
    &&& t.track_type == ty
    &&& t.selected
    &&& (ty != TrackType::Subtitle || include_subtitles)
    &&& !change_matches(t, change)
}

pub open spec fn has_match(ts: Seq<MediaTrack>, n: int, change: Option<(TrackType, u32)>) -> bool {
    exists|j: int| 0 <= j < n && change_matches(#[trigger] ts[j], change)
}

pub open spec fn is_last_match(ts: Seq<MediaTrack>, n: int, change: Option<(TrackType, u32)>, j: int) -> bool {
    &&& 0 <= j < n
    &&& change_matches(ts[j], change)
    &&& forall|k: int| j < k < n ==> !change_matches(#[trigger] ts[k], change)
}

pub open spec fn has_eligible(
    ts: Seq<MediaTrack>,
    n: int,
    ty: TrackType,
    change: Option<(TrackType, u32)>,
    inc: bool,
) -> bool {
    exists|j: int| 0 <= j < n && eligible(#[trigger] ts[j], ty, change, inc)
}

pub open spec fn is_first_eligible(
    ts: Seq<MediaTrack>,
    n: int,
    ty: TrackType,
    change: Option<(TrackType, u32)>,
    inc: bool,
    j: int,
) -> bool {
    &&& 0 <= j < n
    &&& eligible(ts[j], ty, change, inc)
    &&& forall|k: int| 0 <= k < j ==> !eligible(#[trigger] ts[k], ty, change, inc)
}

pub open spec fn is_first_of_type(ts: Seq<MediaTrack>, ty: TrackType, j: int) -> bool {
    &&& 0 <= j < ts.len()
    &&& ts[j].track_type == ty
    &&& forall|k: int| 0 <= k < j ==> (#[trigger] ts[k]).track_type != ty
}

/// The slot of type `ty` after looking at the first `n` tracks: the last
/// track the change names (when it names this type), else the first track
/// that keeps its selection.
pub open spec fn slot_ok(
    ts: Seq<MediaTrack>,
    n: int,
    ty: TrackType,
    change: Option<(TrackType, u32)>,
    inc: bool,
    o: Option<int>,
) -> bool {
    if targets(change, ty) && has_match(ts, n, change) {
        o is Some && is_last_match(ts, n, change, o->0)
    } else if has_eligible(ts, n, ty, change, inc) {
        o is Some && is_first_eligible(ts, n, ty, change, inc, o->0)
    } else {
        o is None
    }
}

/// The track chosen for type `ty`: the slot, or else (video and audio only)
/// the first track of that type.
pub open spec fn pick_ok(
    ts: Seq<MediaTrack>,
    ty: TrackType,
    change: Option<(TrackType, u32)>,
    inc: bool,
    o: Option<int>,
) -> bool {
    let n = ts.len() as int;
    if (targets(change, ty) && has_match(ts, n, change)) || has_eligible(ts, n, ty, change, inc) {
        slot_ok(ts, n, ty, change, inc, o)
    } else if ty != TrackType::Subtitle && exists|j: int| is_first_of_type(ts, ty, j) {
        o is Some && is_first_of_type(ts, ty, o->0)
    } else {
        o is None
    }
}

/// The chosen track of type `ty` (the one index satisfying [`pick_ok`]).
pub open spec fn pick(ts: Seq<MediaTrack>, ty: TrackType, change: Option<(TrackType, u32)>, inc: bool) -> Option<int> {
    choose|o: Option<int>| pick_ok(ts, ty, change, inc, o)
}

proof fn lemma_pick_unique(
    ts: Seq<MediaTrack>,
    ty: TrackType,
    change: Option<(TrackType, u32)>,
    inc: bool,
    a: Option<int>,
    b: Option<int>,
)
    requires
        pick_ok(ts, ty, change, inc, a),
        pick_ok(ts, ty, change, inc, b),
    ensures
        a == b,
{
    let n = ts.len() as int;
    if a is Some && b is Some {
        let x = a->0;
        let y = b->0;
        if x < y {
            if targets(change, ty) && has_match(ts, n, change) {
                assert(!change_matches(ts[y], change));
            } else if has_eligible(ts, n, ty, change, inc) {
                assert(!eligible(ts[x], ty, change, inc));
            } else {
                assert(ts[x].track_type != ty);
            }
        } else if y < x {
            if targets(change, ty) && has_match(ts, n, change) {
                assert(!change_matches(ts[x], change));
            } else if has_eligible(ts, n, ty, change, inc) {
                assert(!eligible(ts[y], ty, change, inc));
            } else {
                assert(ts[y].track_type != ty);
            }
        }
    }
}

proof fn lemma_pick_is(ts: Seq<MediaTrack>, ty: TrackType, change: Option<(TrackType, u32)>, inc: bool, o: Option<int>)
    requires
        pick_ok(ts, ty, change, inc, o),
    ensures
        pick(ts, ty, change, inc) == o,
{
    let c = pick(ts, ty, change, inc);
    lemma_pick_unique(ts, ty, change, inc, c, o);
}

/// `[ids[o]]` when `o` names a track, empty otherwise.
pub open spec fn id_of(ids: Seq<String>, o: Option<int>) -> Seq<Seq<char>> {
    if o is Some { seq![ids[o->0]@] } else { Seq::empty() }
}

/// The stream ids to select, video first, then audio, then subtitle.
pub open spec fn selection(ts: Seq<MediaTrack>, ids: Seq<String>, change: Option<(TrackType, u32)>, inc: bool) -> Seq<Seq<char>> {
    id_of(ids, pick(ts, TrackType::Video, change, inc))
        + id_of(ids, pick(ts, TrackType::Audio, change, inc))
        + id_of(ids, pick(ts, TrackType::Subtitle, change, inc))
}

/// The first track of type `ty`.
fn first_of_type(ts: &Vec<MediaTrack>, ty: TrackType) -> (r: Option<usize>)
    ensures
        match r {
            Some(j) => is_first_of_type(ts@, ty, j as int),
            None => forall|k: int| 0 <= k < ts@.len() ==> (#[trigger] ts@[k]).track_type != ty,
        },
{
    let mut j: usize = 0;
    while j < ts.len()
        invariant
            j <= ts@.len(),
            forall|k: int| 0 <= k < j ==> (#[trigger] ts@[k]).track_type != ty,
        decreases ts@.len() - j,
    {
        if ts[j].track_type == ty {
            return Some(j);
        }
        j = j + 1;
    }
    None
}

/// The three slots after the whole track list (audio, video, subtitle).
fn selection_slots(
    cache: &TrackCache,
    change_type: Option<(TrackType, u32)>,
    include_subtitles: bool,
) -> (r: (Option<usize>, Option<usize>, Option<usize>))
    requires
        cache.wf(),
    ensures
        slot_ok(cache.tracks@, cache.tracks@.len() as int, TrackType::Audio, change_type, include_subtitles, opt_idx_spec(r.0)),
        slot_ok(cache.tracks@, cache.tracks@.len() as int, TrackType::Video, change_type, include_subtitles, opt_idx_spec(r.1)),
        slot_ok(cache.tracks@, cache.tracks@.len() as int, TrackType::Subtitle, change_type, include_subtitles, opt_idx_spec(r.2)),
        r.0 matches Some(j) ==> j < cache.tracks@.len(),
        r.1 matches Some(j) ==> j < cache.tracks@.len(),
        r.2 matches Some(j) ==> j < cache.tracks@.len(),
{
    let ghost ts = cache.tracks@;
    let mut audio: Option<usize> = None;
    let mut video: Option<usize> = None;
    let mut subtitle: Option<usize> = None;
    let mut i: usize = 0;
    while i < cache.tracks.len()
        invariant
            ts == cache.tracks@,
            i <= ts.len(),
            slot_ok(ts, i as int, TrackType::Audio, change_type, include_subtitles, opt_idx_spec(audio)),
            slot_ok(ts, i as int, TrackType::Video, change_type, include_subtitles, opt_idx_spec(video)),
            slot_ok(ts, i as int, TrackType::Subtitle, change_type, include_subtitles, opt_idx_spec(subtitle)),
            audio matches Some(j) ==> j < i,
            video matches Some(j) ==> j < i,
            subtitle matches Some(j) ==> j < i,
        decreases ts.len() - i,
    {
        let track = &cache.tracks[i];
        let ghost ii = i as int;
        let is_change = match change_type {
            Some((ty, id)) => track.track_type == ty && track.id == id,
            None => false,
        };
        assert(is_change == change_matches(ts[ii], change_type));
        proof {
            lemma_slot_step(ts, ii, TrackType::Audio, change_type, include_subtitles);
            lemma_slot_step(ts, ii, TrackType::Video, change_type, include_subtitles);
            lemma_slot_step(ts, ii, TrackType::Subtitle, change_type, include_subtitles);
        }
        if is_change {
            match track.track_type {
                TrackType::Audio => audio = Some(i),
                TrackType::Video => video = Some(i),
                TrackType::Subtitle => subtitle = Some(i),
            }
        } else if !(track.track_type == TrackType::Subtitle && !include_subtitles) && track.selected {
            match track.track_type {
                TrackType::Audio => if audio.is_none() { audio = Some(i); },
                TrackType::Video => if video.is_none() { video = Some(i); },
                TrackType::Subtitle => if subtitle.is_none() && include_subtitles { subtitle = Some(i); },
            }
        }
        i = i + 1;
    }
    (audio, video, subtitle)
}

/// Completes the slot of type `ty` into the chosen track: a change that named
/// no track is looked up once more, and video and audio fall back to their
/// first track.
fn resolve_pick(
    cache: &TrackCache,
    ty: TrackType,
    change_type: Option<(TrackType, u32)>,
    include_subtitles: bool,
    slot: Option<usize>,
) -> (r: Option<usize>)
    requires
        cache.wf(),
        slot_ok(cache.tracks@, cache.tracks@.len() as int, ty, change_type, include_subtitles, opt_idx_spec(slot)),
        slot matches Some(j) ==> j < cache.tracks@.len(),
    ensures
        pick_ok(cache.tracks@, ty, change_type, include_subtitles, opt_idx_spec(r)),
        r matches Some(j) ==> j < cache.tracks@.len(),
{
    let ghost ts = cache.tracks@;
    let ghost n = ts.len() as int;
    let mut chosen = slot;
    if let Some((cty, id)) = change_type {
        if cty == ty && chosen.is_none() {
            let found = find_track(&cache.tracks, cty, id);
            if let Some(j) = found {
                proof {
                    let p = track_is(cty, id);
                    let c = choose|f: int| is_first(ts, p, f);
                    assert(is_first(ts, p, c));
                    assert(change_matches(ts[c], change_type));
                    assert(has_match(ts, n, change_type));
                }
                chosen = Some(j);
            }
        }
    }
    if chosen.is_none() {
        match ty {
            TrackType::Video | TrackType::Audio => {
                chosen = first_of_type(&cache.tracks, ty);
            },
            TrackType::Subtitle => {},
        }
    }
    chosen
}

/// Stream ids to send in a stream selection: the changed track replaces the
/// selection of its type, every other type keeps its currently selected track
/// (subtitles only when `include_subtitles`), and video and audio fall back to
/// their first track.
pub fn selection_stream_ids(
    cache: &TrackCache,
    change_type: Option<(TrackType, u32)>,
    include_subtitles: bool,
) -> (r: Vec<String>)
    requires
        cache.wf(),
    ensures
        r@.map_values(|s: String| s@) == selection(cache.tracks@, cache.stream_ids@, change_type, include_subtitles),
{
    let ghost ts = cache.tracks@;
    let (audio_slot, video_slot, subtitle_slot) = selection_slots(cache, change_type, include_subtitles);
    let video = resolve_pick(cache, TrackType::Video, change_type, include_subtitles, video_slot);
    let audio = resolve_pick(cache, TrackType::Audio, change_type, include_subtitles, audio_slot);
    let subtitle = resolve_pick(cache, TrackType::Subtitle, change_type, include_subtitles, subtitle_slot);
    proof {
        lemma_pick_is(ts, TrackType::Video, change_type, include_subtitles, opt_idx_spec(video));
        lemma_pick_is(ts, TrackType::Audio, change_type, include_subtitles, opt_idx_spec(audio));
        lemma_pick_is(ts, TrackType::Subtitle, change_type, include_subtitles, opt_idx_spec(subtitle));
    }

    let mut r: Vec<String> = Vec::new();
    if let Some(j) = video {
        r.push(cache.stream_ids[j].clone());
    }
    let ghost after_video = r@;
    if let Some(j) = audio {
        r.push(cache.stream_ids[j].clone());
    }
    let ghost after_audio = r@;
    if let Some(j) = subtitle {
        r.push(cache.stream_ids[j].clone());
    }
    proof {
        let ids = cache.stream_ids@;
        assert(after_video.map_values(|s: String| s@) =~= id_of(ids, opt_idx_spec(video)));
        assert(after_audio.map_values(|s: String| s@) =~= id_of(ids, opt_idx_spec(video))
            + id_of(ids, opt_idx_spec(audio)));
        assert(r@.map_values(|s: String| s@) =~= id_of(ids, opt_idx_spec(video))
            + id_of(ids, opt_idx_spec(audio)) + id_of(ids, opt_idx_spec(subtitle)));
    }
    r
}

pub open spec fn opt_idx_spec(o: Option<usize>) -> Option<int> {
    match o {
        Some(j) => Some(j as int),
        None => None,
    }
}

/// One more track keeps each slot characterised by [`slot_ok`], given the
/// update the selection loop makes.
proof fn lemma_slot_step(
    ts: Seq<MediaTrack>,
    i: int,
    ty: TrackType,
    change: Option<(TrackType, u32)>,
    inc: bool,
)
    requires
        0 <= i < ts.len(),
    ensures
        // a changed track of this type takes the slot
        change_matches(ts[i], change) && ts[i].track_type == ty ==>
            slot_ok(ts, i + 1, ty, change, inc, Some(i)),
        // a changed track of another type leaves it
        forall|o: Option<int>| change_matches(ts[i], change) && ts[i].track_type != ty
            && slot_ok(ts, i, ty, change, inc, o) ==> slot_ok(ts, i + 1, ty, change, inc, o),
        // an eligible track fills an empty slot
        !change_matches(ts[i], change) && eligible(ts[i], ty, change, inc)
            && slot_ok(ts, i, ty, change, inc, None) ==> slot_ok(ts, i + 1, ty, change, inc, Some(i)),
        // a filled slot stays, and an ineligible track changes nothing
        forall|o: Option<int>| !change_matches(ts[i], change)
            && slot_ok(ts, i, ty, change, inc, o) && (o is Some || !eligible(ts[i], ty, change, inc))
            ==> slot_ok(ts, i + 1, ty, change, inc, o),
{
    assert forall|o: Option<int>| change_matches(ts[i], change) && ts[i].track_type != ty
        && slot_ok(ts, i, ty, change, inc, o) implies slot_ok(ts, i + 1, ty, change, inc, o) by {
        assert(!targets(change, ty));
        if has_eligible(ts, i + 1, ty, change, inc) {
            let w = choose|j: int| 0 <= j < i + 1 && eligible(#[trigger] ts[j], ty, change, inc);
            assert(has_eligible(ts, i, ty, change, inc));
        }
    }
    if change_matches(ts[i], change) && ts[i].track_type == ty {
        assert(has_match(ts, i + 1, change));
        assert(is_last_match(ts, i + 1, change, i));
    }
    if !change_matches(ts[i], change) && eligible(ts[i], ty, change, inc)
        && slot_ok(ts, i, ty, change, inc, None) {
        if targets(change, ty) && has_match(ts, i + 1, change) {
            let w = choose|j: int| 0 <= j < i + 1 && change_matches(#[trigger] ts[j], change);
            assert(has_match(ts, i, change));
        }
        assert(has_eligible(ts, i + 1, ty, change, inc));
        assert(is_first_eligible(ts, i + 1, ty, change, inc, i));
    }
    assert forall|o: Option<int>| !change_matches(ts[i], change)
        && slot_ok(ts, i, ty, change, inc, o) && (o is Some || !eligible(ts[i], ty, change, inc))
        implies slot_ok(ts, i + 1, ty, change, inc, o) by {
        if targets(change, ty) && has_match(ts, i + 1, change) {
            let w = choose|j: int| 0 <= j < i + 1 && change_matches(#[trigger] ts[j], change);
            assert(has_match(ts, i, change));
        } else if has_eligible(ts, i + 1, ty, change, inc) {
            if o is None {
                let w = choose|j: int| 0 <= j < i + 1 && eligible(#[trigger] ts[j], ty, change, inc);
                assert(has_eligible(ts, i, ty, change, inc));
            }
        }
    }
}

} // verus!
