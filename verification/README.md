# splitstream

Captures microphone and system audio at once and transcribes both sides of a
conversation in real time, with Deepgram, Whisper or Parakeet.

- `src/` is the library. It holds every decision of the program: how captured
  samples become 20 ms frames and batches, when rates are checked and the echo
  filter runs, when recognised text is emitted and models are reset, what is sent
  to and accepted from the transcription service. Each function carries a contract
  that Verus proves; what holds across functions is stated by the `law_` proof
  functions.
- `app/` is the program around it: devices, threads, network connections, model
  inference, and the conversions between samples and the floating-point numbers
  that those work on. Capture needs macOS.
- `tests/` runs the library on concrete values.

Samples are held as the bit patterns of single-precision numbers (`u32`), see
`src/sample.rs`. Calls into the `ringbuf`, `http` and `tungstenite` crates are in
`src/ring.rs` and `src/websocket_client.rs`, each with a statement of what is
relied on.

| Backend | Chosen by | Gets |
|---|---|---|
| Deepgram (cloud) | `with_deepgram` | one stereo frame per tick |
| Whisper (local) | `with_whisper` | half a second per batch |
| Parakeet (local) | `with_parakeet` | 160 ms per batch |
