# auramate

The rhythm core of a quiet desktop focus/break companion, verified with Verus.

- `src/rhythm.rs` — Focus / Short Break / Long Break sessions timed from
  monotonic timestamps (milliseconds), pause and resume, the four-Focus cycle,
  and the snapshot the surfaces render. The core is modelled by `RhythmModel`;
  every operation is specified as a function on that model, and the laws of the
  rhythm (countdown from timestamps, pause freezes, resume restores, a Long Break
  after every fourth Focus) are proof functions over it.
- `src/tray.rs` — tray tooltip, menu-bar title and pause label, as exact text.
- `src/pet.rs` — where the pet sits and when it moves between monitors.
- `src/checkpoint.rs`, `src/history.rs` — wall-clock milliseconds, the gap since
  quitting, and the wall-clock span and label of stored history intervals.
- `src/text.rs` — decimal rendering used by the texts above.

`app/` holds the desktop side: clock readings, the SQLite history store, the
idle reading, serialisable copies of the library's types and a lock-guarded
service over the core.
