# KeyTide

KeyTide protects one local file at a time: it writes an authenticated AES-256-GCM
container (`.coffer`) and a separate 44-byte unlock key (`.cofferkey`), and gives the
file back only when both halves come together.

## Layout

- `src/` — the verified library (Verus).
  - `format.rs` — the v1 container: prefix, payload, encryption, decryption, the
    filename rules, and the round-trip and rejection laws.
  - `key.rs` — the key file: encoding, strict parsing, fresh random keys.
  - `ops.rs` — sealing and opening a file as byte work, and the step-by-step protocol
    of protecting and restoring (what follows each filesystem step, cancellation and
    rollback).
  - `workflow.rs` — the desktop workflow's state and every decision on it.
  - `names.rs`, `size.rs`, `text.rs`, `bytes.rs`, `error.rs` — output-name rules,
    readable sizes, decimal text, big-endian integers, errors and their messages.
  - `outside.rs` — the trusted boundary: `aes-gcm`, `getrandom`, `zeroize` and a few
    std calls, each with the contract the library relies on.
- `tests/` — tests of the library, including the published compatibility fixture.
- `app/` — the desktop program (eframe/egui window, file dialogs, background worker,
  temporary files and no-clobber commits) built on the library.
