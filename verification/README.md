# xue_hua_video_player

The playback core of a GStreamer-backed Flutter video player, written in
Verus. The player's decisions (bus message reduction and dispatch order,
overlay-gated preroll, play and end-of-stream resume, track selection,
overlay session bookkeeping, the iOS layer attach steps) are plain-value
functions with contracts, proved by Verus. The application crate in `app/` is
not verified: it builds and drives the GStreamer pipelines, converts GStreamer
values to the core's types, performs the actions the core returns, and holds
what needs floating point (playback rate, frame rate) or platform calls (the
iOS host view, Core Foundation).

## Layout

- `src/events.rs` – events reported to Dart and their shapes.
- `src/pipeline.rs` – pipeline states, snapshots, source kinds, capabilities,
  the media side of a pipeline shell, rotation targets, synchronous state
  changes.
- `src/bus.rs` – reduction of bus messages into events, side effects and a
  replay-flag patch (per platform), the order in which they are handled, and
  the position poll tick.
- `src/preroll.rs` – the overlay-gated preroll rule and the bounded bind-path
  loop.
- `src/resume.rs` – play / end-of-stream resume decisions.
- `src/overlay.rs`, `src/android.rs`, `src/ios.rs` – overlay sessions (handle
  cache, bind state, generations, attach scheduling, the Android surface
  apply and iOS target-state / attach-request protocols as step functions,
  the CALayer attach steps) and load-path policies.
- `src/tracks.rs` – track cache built from stream collections and stream
  selection.
- `src/orientation.rs` – rotation and aspect-ratio settings.
- `src/metadata.rs` – decoded video metadata and HDR labels.
- `src/frame.rs` – latest-frame stores for texture rendering and the sink
  registry.
- `src/engine.rs` – player intent and per-call plans (load, play, seek, stop,
  tracks, overlay routing, size probe).
- `src/bus_thread.rs` – the bus loop of the single-pipeline player.
- `src/laws.rs` – properties spanning several operations.
- `tests/` – tests on concrete values.
- `app/` – GStreamer wiring (not verified).
