# srt_media

Building blocks of a live SRT media source, verified with Verus.

`src/` is the verified library:

- `source::filters`: audio and video filter descriptions (formats, scaling,
  cropping by region of interest, generic filters) and the string parameters
  each one gives its FFmpeg filter, held in `FilterParameters`, a map whose
  names are unique.
- `source`: stream selection (`StreamDescriptor`), the layout of a filter
  graph that chains its filters in order, and the decisions taken while a
  live stream is read: container detection, when to probe the stream, and
  what each packet read or decode gives (`NextFrameResult`).
- `source_stream`: what a source URL names (file or SRT, listening port or
  peer address).
- `text`: decimal writing, joining, prefix tests, pattern removal and `u16`
  reading, each proved against a model.

`app/` is the part that talks to FFmpeg (through `stainless_ffmpeg`), the
network (`srt-tokio`) and files, and the serde forms of the filter
descriptions.
