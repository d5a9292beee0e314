# webtiles_rs

The verified core of a WebTiles game server.

- `src/game/session.rs`: one running game, with its watchers, its moderation
  (blocks and timed kicks) and its line in the lobby.
- `src/game/mailbox.rs`: the bounded queue of one connection, over a tokio
  channel.
- `src/game/clock.rs`: time since a session began.
- `src/game/model.rs`: sessions and watchers as mathematical values, which the
  contracts speak of.
- `src/game/laws.rs`: what holds of sessions as a whole.
- `src/http.rs`, `src/server.rs`: the paths the server answers, and what it
  decides when it starts.
- `app/`: the program around the library: arguments, locks, router, signals.
