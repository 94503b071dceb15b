# tiycode

The verified core of the TiyCode IM gateway and of its persistence models,
written in Verus. Every function under `src/` carries a contract that Verus
proves; the few calls into outside crates (hashing, encryption, encodings,
time formatting, reading a few JSON scalars and string lists) sit behind
small wrappers whose contracts are stated in their doc comments. JSON text
is parsed into the library's `Json` value in `app/`; the library takes the
parsed value, and its contracts speak of that value.

- `src/gateway/`: command parsing, message formatting and splitting, the
  per-user session, the runner's decisions, the de-duplication cache, and
  one module per IM platform (WeChat, WeCom, Feishu, WhatsApp) holding the
  parsing of inbound messages and replies and the webhook decisions.
- `src/model/`, `src/persistence/`, `src/ipc/`: the records, DTOs, status
  enums and row conversions, with round-trip laws.
- `src/text.rs`, `src/json.rs`, `src/crypto.rs`, `src/time.rs`: character,
  JSON, cryptographic and time helpers the rest builds on.
- `tests/`: executable tests of the library.
- `app/`: a small command-line host that does the file I/O and JSON/TOML
  (de)serialisation around the library.
