# cap_desktop

The decisions behind a screen-recording desktop application, written and proved in Verus.

- `src/` is the library. It decides; it does not act. What is to be done comes back as values:
  a list of effects, the next step of a render or of an upload, a window to build.
- `app/` is the application around it: files, programs, windows, and whatever needs floating
  point. `app/macos.rs` is the part that runs on macOS.
- `tests/` runs the library from outside.

| module | what it is about |
| --- | --- |
| `app`, `effect`, `events`, `recording` | the state of the application and what changes of it bring about |
| `window`, `panel` | the windows, and the panel that lets the cursor through |
| `storage`, `path`, `text` | where recordings are kept |
| `video`, `picture`, `audio` | video files, stills and sound |
| `render`, `command` | rendering to a file |
| `share` | uploading a rendered video |
| `editor`, `table` | the open editors |
