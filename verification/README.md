# multi_client

The decision logic of naia's multi-client demos, verified with Verus.

- `src/socket.rs`: the raw-socket ping clients, which count pongs until they have three.
- `src/runner.rs`: the multi-client runners and the switching of the second runner between servers B and C.
- `src/server.rs`: login checks, tick messages, and the scope of the shared component.
- `src/names.rs`: the named plugin clients, their string messages and counters.
- `src/relations.rs`, `src/prediction.rs`, `src/lines.rs`: the entity-relations client (ownership, cursor, drawing, client-side prediction with rollback over `naia_client::CommandHistory`, relation lines).
- `src/history.rs`, `src/sequence.rs`: the trusted contracts of the naia functions that the logic calls.
- `src/text.rs`, `src/decimal.rs`: the text of the messages.
- `app/`: the programs, which do the network and ECS work around the library.
