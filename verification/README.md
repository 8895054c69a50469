# lishuuro

The game-server logic of a shuuro chess site, verified with Verus: lobby
requests, chat rooms with a per-user message limit, spectator rooms, chess
clocks, the records of live games and the decisions taken on each socket
message.

Layout:

- `src/` – the verified library.
  - `websockets/` – the server's live state: players and rooms, chat, lobby
    requests, clocks, live games by board, and the routing of socket messages.
  - `lishuuro/websockets/` – the rooms of the newer server.
  - `models/` – the lobby, clocks and live games of the actor-based server.
  - `database/`, `lichess/` – sessions, cookies, stored records, login data.
  - `names.rs`, `text.rs` – sets of names, keyed entries and text helpers.
  - `clock.rs`, `chance.rs` – the system clock and random values.
- `tests/` – tests of the library on concrete values.
- `app/` – the HTTP and websocket server around the library: MongoDB, Redis,
  axum routes and the JSON messages.

The moves of the shop, the deployment and the fight come from the shuuro move
generator; the library takes its answers as arguments.
