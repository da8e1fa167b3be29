# virtual_mic

The core of a realtime speech-translation virtual microphone, written in
Verus: the engine session and its sample rings, the shared output ring read by
the audio driver, the configuration parser, the wire formats of the realtime
translation services, the decisions of the caption pipeline (recognition,
translation, speech synthesis), offline translation token handling, and the
requests and replies of the remote translation and speech services. Every
function in `src/` carries a contract that Verus proves, except the few small
functions marked `#[verifier::external_body]` that call the `hex` and
`tokenizers` crates or `String::push`: their contracts are trusted, and each
one's doc comment says what it claims of the call.

Layout:

- `src/` — the verified library (`virtual_mic`), one module per concern.
- `tests/` — tests of the library on concrete values.
- `app/` — the host program around it: audio I/O in floating point,
  resampling, the memory-mapped output file, HTTP clients, the C interface,
  the native speech-recognition and translation engines, and the worker
  threads of the caption pipeline.
