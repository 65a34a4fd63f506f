# stream_reconnect

Reconnect logic for `Stream`/`Sink` wrappers that recover from disconnections.

- `src/` is the verified library: the options (`config`), the decisions of the
  initial connection (`initial`), the state machine of a connected wrapper
  (`machine`), whole polls (`poll`), the default retry schedule (`strategies`),
  and laws over whole runs (`laws`).
- `app/` runs those decisions on tokio: `ReconnectStream` and the
  `UnderlyingStream` trait that users implement.
- `tests/` replays connection scenarios against the library.
