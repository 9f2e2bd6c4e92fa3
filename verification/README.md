# openfang_wechat

A WeChat iLink Bot channel adapter whose decisions are verified with Verus: QR-code login, long
polling, the allow-list, context tokens, pacing after failures, and what is kept in the state
directory so that the adapter resumes without another scan.

- `src/` decides. Every step takes plain values (a state, what has happened since) and says what to
  do next. The contracts say exactly which step follows; `src/laws.rs` and `src/runs.rs` state what
  holds of the adapter and of a poll as a whole. `src/outside.rs` holds the calls into other crates,
  whose contracts are taken on trust.
- `app/` acts. It makes the requests, keeps the files, the clock and the tasks running, and carries
  messages to their reader.
- `tests/` runs the library on concrete values, with the other crates linked.
