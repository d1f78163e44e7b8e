# Whispering

Whispering is a local speech-to-text tray app: a global shortcut starts and
stops a microphone recording, Whisper transcribes it on the machine, and the
text is typed at the cursor of the focused app.

This crate splits the app in two:

- `src/` is a Verus-verified library holding the app's decisions:
  - `session`: the phases (idle, loading model, recording, transcribing,
    typing, error), the tray status and overlay messages, and every step of
    record → transcribe → type;
  - `menu`: the tray menu layout and the routing of menu clicks;
  - `settings`: defaults, model classification and listing (sorted by file
    name), and how the configured model is resolved when settings load;
  - `platform`: per-platform shortcuts, capabilities and directories;
  - `status`: overlay kinds, anchoring and placement decisions;
  - `transcripts`: recovery file names, paths and contents;
  - `permissions`, `audio`, `sounds`: when to prompt, which microphone to
    open, which sound to play;
  - `paths` and `text`: the path and string operations the rest relies on.
- `app/` is the desktop program around it: Tauri windows and tray, the global
  hotkey, cpal audio capture and signal processing, whisper-rs transcription,
  enigo typing, TOML settings files and macOS permission calls.

The tests under `tests/` exercise the library on concrete values.
