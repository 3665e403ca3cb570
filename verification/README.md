# wavekat-asr

Streaming speech-to-text for voice pipelines, written in
[Verus](https://github.com/verus-lang/verus): what the library decides is
stated in contracts and proved.

- `src/` is the verified library.
  - `lib.rs`: channels, transcript events and the `StreamingAsr` trait.
  - `error.rs`, `text.rs`: errors and the texts they are made of.
  - `outside.rs`: everything taken from other crates and std without proof.
  - `backends/mock.rs`: a scripted backend for wiring up consumers.
  - `backends/sherpa_onnx/`: the sherpa-onnx backend. `preset.rs` has the
    bundled models, `config.rs` and `files.rs` turn a configuration into model
    files and recognizer settings, `setup.rs` opens a session, `session.rs`
    runs it, and `laws.rs` states what holds of every session.
  - `download/`: downloads with progress (`batch.rs`, `progress.rs`), the
    offline look into the HuggingFace cache (`cache.rs`), and what a download
    leaves behind for both to find (`laws.rs`).
- `tests/` runs the library on concrete values.
- `app/` is ordinary Rust around the library: the file system, the
  environment, the HuggingFace Hub and the native recognizer.

## Talking to the outside

The library makes no system calls. Functions that need one take it as a
closure (look at a path, open a repo, fetch a file, create a recognizer), and
their contracts hold whatever the closure returns. What a function requires of
a closure is that it is ready for the calls that are due, and for no others.
Closures that change something also take a value of the caller's own and give
it back, such as the callback that progress goes to. The value that comes back
at the end has been through exactly the calls that the contract lists, so the
contracts fix which calls are made, how often and in which order.

The recognizer of a running session is reached through a protocol instead: the
session names the next `RecognizerCall`, the application makes it and hands
back the `RecognizerReply`, and transcript events go out on the session's
receiver.

Floating-point settings are stored by their bit patterns (`F32Bits`): the
library passes them on and never computes with them.
