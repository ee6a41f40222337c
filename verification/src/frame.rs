//! Latest-frame store for Flutter external-texture rendering: the appsink
//! hands each decoded BGRA frame over, the native texture layer is notified,
//! and pulls the pixels back by copying them into its own buffer.

use std::collections::HashMap;

use vstd::prelude::*;

verus! {

/// A decoded BGRA frame. `stride` is the row stride in bytes (it may exceed
/// `width * 4` because of row padding).
pub struct VideoFrame {
    pub width: i32,
    pub height: i32,
    pub stride: i32,
    pub data: Vec<u8>,
}

/// Latest frame plus the optional notify callback of the native texture layer.
pub struct FrameSink<C> {
    pub latest: Option<VideoFrame>,
    pub callback: Option<C>,
}

/// `dst` after copying `data` into its front: the first `data.len()` bytes
/// are `data`, the rest is unchanged.
pub open spec fn copied_into(dst: Seq<u8>, data: Seq<u8>) -> Seq<u8> {
    data + dst.subrange(data.len() as int, dst.len() as int)
}

impl<C: Copy> FrameSink<C> {
    /// An empty sink: no frame, no callback.
    pub fn new() -> (s: Self)
        ensures
            s.latest is None,
            s.callback is None,
    {
        FrameSink { latest: None, callback: None }
    }

    /// Registers the notify callback, replacing any previous one.
    pub fn set_callback(&mut self, callback: C)
        ensures
            final(self).callback == Some(callback),
            final(self).latest == old(self).latest,
    {
        self.callback = Some(callback);
    }

    /// Removes the notify callback.
    pub fn clear_callback(&mut self)
        ensures
            final(self).callback is None,
            final(self).latest == old(self).latest,
    {
        self.callback = None;
    }

    /// Replaces the latest frame and returns the callback to notify, if one is
    /// registered.
    pub fn store_frame(&mut self, frame: VideoFrame) -> (notify: Option<C>)
        ensures
            final(self).latest == Some(frame),
            final(self).callback == old(self).callback,
            notify == old(self).callback,
    {
        self.latest = Some(frame);
        self.callback
    }

    /// Copies the latest frame's pixels into the front of `dst` and returns
    /// `(width, height, stride)`; `None`, with `dst` untouched, when there is
    /// no frame or `dst` is shorter than the frame's bytes.
    pub fn copy_latest(&self, dst: &mut [u8]) -> (r: Option<(i32, i32, i32)>)
        ensures
            match self.latest {
                None => r is None && final(dst)@ == old(dst)@,
                Some(f) => if old(dst)@.len() < f.data@.len() {
                    r is None && final(dst)@ == old(dst)@
                } else {
                    r == Some((f.width, f.height, f.stride))
                        && final(dst)@ == copied_into(old(dst)@, f.data@)
                },
            },
    {
        match &self.latest {
            None => None,
            Some(frame) => {
                let n: usize = frame.data.len();
                if dst.len() < n {
                    return None;
                }
                let mut i: usize = 0;
                while i < n
                    invariant
                        n == frame.data@.len(),
                        n <= dst@.len(),
                        dst@.len() == old(dst)@.len(),
                        i <= n,
                        forall|k: int| 0 <= k < i ==> dst@[k] == frame.data@[k],
                        forall|k: int| n <= k < dst@.len() ==> dst@[k] == old(dst)@[k],
                    decreases n - i,
                {
                    dst[i] = frame.data[i];
                    i = i + 1;
                }
                assert(dst@ =~= copied_into(old(dst)@, frame.data@));
                Some((frame.width, frame.height, frame.stride))
            },
        }
    }

    /// Latest frame geometry: `(width, height, stride, byte length)`.
    pub fn latest_geometry(&self) -> (r: Option<(i32, i32, i32, usize)>)
        ensures
            match self.latest {
                None => r is None,
                Some(f) => r == Some((f.width, f.height, f.stride, f.data@.len() as usize)),
            },
    {
        match &self.latest {
            None => None,
            Some(frame) => Some((frame.width, frame.height, frame.stride, frame.data.len())),
        }
    }
}

/// A tightly packed RGBA8888 frame.
pub struct RgbaFrame {
    pub width: i32,
    pub height: i32,
    pub data: Vec<u8>,
}

/// The most recent decoded frame handed to the Flutter texture (older frames
/// are dropped).
pub struct FrameBuffer {
    pub latest: Option<RgbaFrame>,
}

/// The pixels a texture shows with no frame: one transparent pixel.
pub open spec fn transparent_pixel() -> Seq<u8> {
    seq![0u8, 0u8, 0u8, 0u8]
}

impl FrameBuffer {
    pub fn new() -> (b: Self)
        ensures
            b.latest is None,
    {
        FrameBuffer { latest: None }
    }

    /// Stores a frame as the latest one.
    pub fn set(&mut self, width: i32, height: i32, data: Vec<u8>)
        ensures
            final(self).latest matches Some(f) && f.width == width && f.height == height
                && f.data@ == data@,
    {
        self.latest = Some(RgbaFrame { width, height, data });
    }

    /// Drops the frame so the texture shows transparent again.
    pub fn clear(&mut self)
        ensures
            final(self).latest is None,
    {
        self.latest = None;
    }

    /// The payload for the texture: the latest frame's size and a copy of its
    /// pixels, or a single transparent pixel when there is no frame.
    pub fn payload(&self) -> (r: (i32, i32, Vec<u8>))
        ensures
            match self.latest {
                Some(f) => r.0 == f.width && r.1 == f.height && r.2@ == f.data@,
                None => r.0 == 1 && r.1 == 1 && r.2@ == transparent_pixel(),
            },
    {
        match &self.latest {
            Some(frame) => {
                let mut copy: Vec<u8> = Vec::new();
                let mut i: usize = 0;
                while i < frame.data.len()
                    invariant
                        i <= frame.data@.len(),
                        copy@ == frame.data@.subrange(0, i as int),
                    decreases frame.data@.len() - i,
                {
                    copy.push(frame.data[i]);
                    i = i + 1;
                }
                assert(copy@ =~= frame.data@);
                (frame.width, frame.height, copy)
            },
            None => {
                let pixel: Vec<u8> = vec![0u8, 0u8, 0u8, 0u8];
                assert(pixel@ =~= transparent_pixel());
                (1, 1, pixel)
            },
        }
    }
}

/// `player_id -> sink` registry through which the native texture layer
/// reaches a player's frame source.
pub struct FrameSinkRegistry<T> {
    pub sinks: HashMap<i64, T>,
}

impl<T> FrameSinkRegistry<T> {
    pub open spec fn view(&self) -> Map<i64, T> {
        self.sinks@
    }

    /// An empty registry.
    pub fn new() -> (r: Self)
        ensures
            r.view() == Map::<i64, T>::empty(),
    {
        FrameSinkRegistry { sinks: HashMap::new() }
    }

    /// Registers (or replaces) the sink of a player.
    pub fn register_frame_sink(&mut self, player_id: i64, sink: T)
        ensures
            final(self).view() == old(self).view().insert(player_id, sink),
    {
        broadcast use vstd::std_specs::hash::group_hash_axioms;
        self.sinks.insert(player_id, sink);
    }

    /// Removes the sink of a player, if any.
    pub fn unregister_frame_sink(&mut self, player_id: i64)
        ensures
            final(self).view() == old(self).view().remove(player_id),
    {
        broadcast use vstd::std_specs::hash::group_hash_axioms;
        self.sinks.remove(&player_id);
    }

    /// The sink registered for a player.
    pub fn frame_sink_for(&self, player_id: i64) -> (r: Option<&T>)
        ensures
            match r {
                Some(s) => self.view().contains_key(player_id) && *s == self.view()[player_id],
                None => !self.view().contains_key(player_id),
            },
    {
        broadcast use vstd::std_specs::hash::group_hash_axioms;
        self.sinks.get(&player_id)
    }
}

} // verus!
