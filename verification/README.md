# kooha

The decision logic of a GNOME screen recorder built on GStreamer, written in
Verus and proved against its contracts.

- `src/pipeline.rs`: the state machine that decides what the recording
  pipeline does on each request and bus message (start/stop recording,
  load/unload desktop audio and microphone, learn the stream size, route level
  meter messages), with its laws.
- `src/layout.rs`: the side-by-side placement of captured screens in the
  composited picture.
- `src/utils.rs`: thread count for media processing, the experimental-mode
  switch, the quit rule and file URIs.
- `app/`: the GTK application and GStreamer element plumbing that performs
  the actions the library decides on.
