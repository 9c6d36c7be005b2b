# respondent_lib

The logic of a live meeting assistant that listens to system audio, shows
live transcripts and suggests replies, written in Verus and proved against
its contracts.

- `src/` — the verified library: settings normalization and stores
  (`appearance_settings`, `reply_style_settings`), the reply prompt and
  request body, the server-sent-event stream and the per-reply state machine
  (`llm`), audio frame bookkeeping and the loopback capture channel (`audio`),
  session commands (`commands`), window show/hide debouncing and key-event
  decisions (`window_visibility`), and text helpers (`text`).
- `app/` — the desktop shell: settings files, JSON wire types, the HTTP
  transport and its worker thread, float sample conversion, and the Tauri
  commands and window handling.
- `tests/` — executable tests of the library.
