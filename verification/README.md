# whisper_npu

Offline voice dictation for Linux: a daemon records the microphone, runs a
Whisper recognizer on the NPU and pastes the result into the focused window;
an always-on-top overlay shows the live transcript, allows manual edits and
can have a local LLM revise the text.

The library (`src/`, verified with Verus) holds the decisions:

- `text` — Unicode white space, trimming, words, lines, substring search,
  decimal numbers, over `Seq<char>`.
- `transcript` — cleaning of recognizer output (bracketed annotations
  removed, white space collapsed), the engine configuration, GPU selection.
- `fix` — the revision prompt, cleaning of the model's reply, the order of
  `systemctl` attempts and the readiness protocol of the LLM service.
- `protocol` — the messages between overlay and daemon.
- `daemon` — what the daemon does on each command, timer tick and
  transcription result.
- `recorder` — speaker muting around recording.
- `server` — listening while clients are connected.
- `paste` — clipboard environment, paste keystroke, clipboard wait.
- `client` — the overlay's state: pause, editing, the fix window, keys.

`app/` runs the processes, sockets, HTTP requests, JSON encoding and the
egui interface (`app daemon`, `app client`).
