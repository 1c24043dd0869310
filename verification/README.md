# elevenlabs_rs

A client library for the ElevenLabs API whose request building and protocol
logic is verified with Verus.

- `src/` is the verified library: endpoint paths, methods, path and query
  parameters, multipart forms, URL building, MIME inference from file names,
  the detailed-music multipart and server-sent-event decoders, WebSocket
  session state and close decisions, speech-engine JWT checks, realtime
  message classification, text chunking and PCM helpers. Calls into
  `base64`, `hmac`, `sha2`, `serde_json`, `reqwest`'s URL type and
  `bytemuck` sit behind small trusted wrappers whose contracts name or state
  their results.
- `app/` is the unverified I/O around it: the HTTP client, WebSocket reader
  and writer tasks, JSON forms of the bodies and messages (which carry
  floating-point settings), file output, audio resampling and the
  text-chunking stream.
- `tests/` exercises the library on concrete values.
