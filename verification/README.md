# timekeeper

A large-display clock with a target timestamp and a countdown readout, split in two:

- `src/` — the verified library (Verus):
  - `time.rs`: instants (`Timestamp`) and spans (`TimeDelta`) as plain values, their
    arithmetic, and the system clock (`timenow`, through chrono).
  - `local.rs`: clock times in the machine's time zone, through chrono.
  - `text.rs`: reading characters, splitting on a separator, and `str::parse` for
    `u32`/`i64`, each against a specification of the standard library's behaviour.
  - `input.rs`: absolute (`[[hh:]mm:]ss`) and relative (`[+|-][[hh:]mm:]ss`)
    timestamps typed by the user.
  - `display.rs`: the countdown text `t[+|-]hh:mm:ss`.
  - `state.rs`, `action.rs`, `focus.rs`, `controller.rs`: persistent state, pending
    actions, managed default focus, and the per-frame decisions of the window.
  - `laws.rs`: properties that span several functions.
- `app/` — the eframe window around it: drawing, keyboard input and persistence.
- `tests/` — tests of the library.
