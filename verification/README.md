# tg

A command-line client for Telegram built on TDLib, whose logic is a library
verified with Verus.

- `src/` — the library. Its functions carry `requires`/`ensures` contracts
  that Verus proves, covering reading message content, the history and chat-list
  walks, the login and send-confirmation decisions, download file naming and
  statuses, credentials bookkeeping, recipient resolution, `--since-utc`
  cutoffs, bulk sync, the socket protocol's routing and envelopes, and the
  plain-text renderings and table layout, and how each file of a download is
  settled. Calls into other crates (chrono, colored, unicode-width, serde_json
  and a few std functions) sit behind small trusted wrappers (marked
  `external_body`): Verus believes their contracts, which say what those
  crates document, without proving them.
- `app/` — the program: argument parsing (clap), the TDLib session
  (tdlib-rs), the Bot API (reqwest), the Unix-socket server (tokio), the
  filesystem, the clock, JSON (serde) and the table rendering (comfy-table).
  It performs the I/O and hands what it found to the library's decisions;
  it is not verified.
- `tests/` — tests of the library on concrete values.

Run `verus` on `src/lib.rs` to check the proofs.
