# rust_chaser

A maker-order chaser for the Binance USDⓈ-M futures contract `1000PEPEUSDC`.
It places post-only (`GTX`) limit orders and keeps them at the best bid (buy)
or best ask (sell) as the book-ticker stream moves.

The decisions are a library with proved contracts (`src/`); the program around
it (`app/`) does the network, clock, file and window work.

- `src/chaser.rs` — the chase state machine, its spec-level steps and laws.
- `src/status.rs` — what the window shows, with a log capped at 15 lines.
- `src/binance.rs` — credentials, clock offset, signed order requests,
  judgement of replies.
- `src/signing.rs` — HMAC-SHA256 signatures in lowercase hex.
- `src/decimal.rs` — prices and quantities as hundred-millionths, read from
  and printed as decimal text.
- `src/config.rs`, `src/env_load.rs` — configuration lookup and cleaning.
- `src/ui.rs` — what each window control does.
- `src/json.rs`, `src/text.rs` — JSON field reading and string helpers.

Configuration is read from the first of `.env`, `../backend/.env`,
`backend/.env` that exists, else from the process environment:
`BINANCE_API_KEY`, `BINANCE_API_SECRET`, `TESTNET` (`true` / `false`).
