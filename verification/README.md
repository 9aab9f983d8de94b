# music

The decisions behind a music player's sources, written in Verus: what each function returns is
stated in its contract and proved.

- `src/subsonic` – a track downloaded while it plays: what an arrival does to the buffer, what a
  reader is answered, when playback may start. `laws.rs` holds what is true over many calls.
- `src/youtube` – the home page, genres and sign-in of YouTube Music, on what has been read of
  its pages.
- `src/device.rs` – the prompt that shows a device code.
- `app` – the ordinary Rust around it: tasks, locks, files, requests and drawing. The YouTube
  Music client and the window toolkit come in through the traits in `app/youtube/service.rs` and
  `app/device.rs`.

Two calls are trusted rather than proved: `str::to_lowercase` (`src/text.rs`) and
`serde_json::Value::get` (`src/json.rs`).
