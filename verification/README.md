# m5a_core

The logic of a voice chat companion for young children, running on an
M5Stack CoreS3: a child touches the screen to talk, the device records until
the child falls silent, and an OpenAI Realtime session answers aloud while a
drawn face listens, thinks and talks. A parent sets the device up by editing
a TOML file on its SD card and reads the day's transcript from the same card.

`src/` is the library, written in Verus: every function carries a contract
and the properties that span functions are stated and proved as `law_*`
proof functions.

- `state`, `screen`, `turn_detector` — the conversation state machine, the
  choice between the face and the settings screen, and when a turn ends.
- `face`, `layout`, `render`, `gesture` — the face's state over time, where
  each part of it is drawn, and which touches count.
- `settings_layout`, `module_status` — the settings screen and the readiness
  of each part of the device.
- `config`, `logbook`, `memory`, `ports` — the SD card: settings, transcript,
  what the assistant remembers, and the storage interface the device implements.
- `guardrail`, `greeting` — the session instructions and the word check that
  keeps the talk safe.
- `realtime`, `search`, `json` — messages to and from the Realtime API and
  the web search API.
- `audio`, `text` — μ-law and PCM16 coding, voice level, and small text
  helpers.
- `runtime`, `main_loop`, `network` — what the device's main loop decides
  between frames: the events raised by touches, server messages and
  playback, tool calls, pending transcript lines, swipes, retries, idle
  power-off, local time and how the network address is reported.

`app/` holds what is not verified: a host-side runner with a directory
standing in for the SD card, and the floating-point motion curves of the face
and the audio resampling.

Settings that are TOML but of the wrong shape are reported in the library's
own words (``missing field `age` ``, ``invalid type for `age`, expected …``):
the fields are checked by verified code over the parsed document instead of
by a serde derive, so these messages differ from serde's.
