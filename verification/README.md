# crossterm (Motor OS backend logic)

The decisions of a terminal library's Motor OS backend, verified with Verus.

- `src/event/input.rs`: drops the LF of each CR LF pair, across bursts.
- `src/event/probe.rs`: the fallback size probe (`CSI 18 t`, then the cursor
  probe), its cadence and its arbitration of cursor reports.
- `src/event/source.rs`: the event source's read loop as a state machine:
  size-report routing, escape timer, wait deadlines, readiness, bursts.
- `src/event/internal.rs`: how a poll divides its timeout around the reader lock.
- `src/event/ctrl_c.rs`: the count of pending Ctrl+C events.
- `src/cursor.rs`: the cursor position round trip as a state machine, and the
  count of position requests in flight.
- `src/terminal.rs`: raw mode and resize-mode bookkeeping, the size record and
  the size precedence.
- `src/time.rs`: time points and spans in nanoseconds.

`app/` holds what Verus does not see: process-wide state behind locks, stdout,
the environment, the Motor OS runtime's registries and Ctrl+C listener, and
the loops that perform the actions the state machines ask for.
