# traffic_lights

A verified controller for a four-way signalised junction: two pairs of opposing
traffic lights (North–South and East–West), a pedestrian crossing, and a fault
monitor that shuts the junction down on light or progress faults.

- `src/` is the library, written in Verus. `junction.rs` states the junction's
  abstract state (`JunctionView`), the effect of every operation on it, and the
  safety invariant `JunctionView::safe` (paired lights in step, mutual exclusion
  of the crossing roads, pedestrians only on all-Red, terminal shutdown, a 30 s
  green limit on an installation whose sensor has failed), with proofs
  that every operation keeps it, and timing laws (`lemma_phase_timing`,
  `lemma_sensor_fault_ends_green`) stating when each phase ends: a pair moves
  on when the phase of either of its installations has run out.
- `src/time.rs` holds durations and instants as whole nanoseconds.
- `src/console.rs` holds the operator console's decisions (key bindings and the
  automatic cycle).
- `app/` is the terminal front end (ratatui + crossterm).
- `tests/` exercises the library.
