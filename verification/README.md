# soundlore

The logic of a music player that organises a library by tags, verified with
Verus.

- `src/playback/queue`: the playback queue — a cursor over entries generated
  from a track pool (in order or shuffled, repeating or not) with tracks the
  user queues; its laws are in `laws.rs`.
- `src/search`: nested search conditions over tags, their validation and
  evaluation against the track/tag index.
- `src/tag`: the track/tag index and its laws.
- `src/ui`: the decisions of the panes and modals — each component turns a
  message into a new state and the outcomes it asks of the application.
- `src/outcome.rs`: how the application applies those outcomes to the queue,
  the index and the modals, and what it leaves for the audio controller and
  the database to do.
- `app/`: the database access, the error types with their messages, and the
  fractional playback positions.
