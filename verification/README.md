# netgame

A verified library for a handful of small networked programs, with the
programs themselves in `app/`.

- `src/text.rs` — decimal rendering, Unicode white-space trimming and the
  parsing of unsigned decimal input lines.
- `src/game.rs` — two-player tic-tac-toe: board, moves, winner check, the
  server's per-turn decisions and the admission of two players.
- `src/crypto.rs` — Ed25519 keys and signatures over plain bytes, through
  `ed25519-dalek` and `rand`.
- `src/reports.rs` — signed price reports: an aggregator that keeps only
  verified reports, and a price server's ledger of verified submissions.
- `src/market.rs` — the price member of a trade message, through `serde_json`.
- `src/chat.rs` — client numbering, acknowledgements and the exit command of
  a line-based chat.

`app/main.rs` runs one of the programs, named by its first argument:
`tictactoe-server`, `tictactoe-client`, `btc-aggregator`, `btc-server`,
`btc-client`, `chat-server`, `chat-client`, `chat-listener`. The network and
console I/O, the async plumbing and all floating-point arithmetic on prices
live there.
