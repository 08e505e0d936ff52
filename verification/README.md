# svc_assets

The REST layer of an asset service (aircraft, vertiports, vertipads, asset
groups) whose records live in a separate storage service reached over gRPC.

- `src/` is verified with Verus. `ids` decides which texts are UUIDs and makes
  new ones; `timestamp` reads RFC 3339 times, refusing up front the texts on which the
  outside parser would panic; `records` builds the record of a
  registration and merges an update into a stored record, with the laws that an
  empty update keeps a vertiport or vertipad record as it was (an aircraft
  record too, but for its last vertiport, which every aircraft update sets)
  and that an update applied twice equals one;
  `flows` holds the steps of a request that needs storage, each a value that
  waits for the outcome of one storage call; `handlers` is the entry of every
  REST handler.
- `app/` is the HTTP server: routes, the lazily connected storage clients, the
  JSON bodies, and the handlers that make the storage calls the steps ask for.
  No storage client in reach keeps operators or asset groups, so their steps
  are told the client is unavailable and answer 503.
- `tests/` runs the library on concrete values.
