# flashlib

A verified library for flashing lights, and the terminal simulator built on it.

- `src/` is the library, verified with Verus:
  - `lights.rs`: the five `LightId`s, `OnOff` states, the `Lights` trait
    (reading a light gives what was last written to it; writing one light
    leaves the others) and `TuiLights`, light states held in memory.
  - `time.rs`, `order.rs`: the clock model. `TimeAdd` is the contract of a
    point in time (a position on a time line, a checked move forward by a
    `Duration`, an order by position); `WrappedInstant`, a reading in
    nanoseconds from a clock's origin, implements it. The flashers are generic
    over any `TimeAdd` point and report `TimeError::Overflow` where the next
    point cannot be represented.
  - `polled.rs`, `many_poll.rs`: `FlashPolled`, which toggles its light when
    polled at or after its next toggle time, and `ManyPoll`, which polls
    several flashers in order.
  - `sleep.rs`: `FlashSleep` and its `SleepSchedule`, the decisions of a
    flasher that sleeps a fixed duration between toggles.
  - `log.rs`, `visitor.rs`, `text.rs`: the log buffer, the text of a log event
    composed from its fields, and decimal notation of integers.
  - `display.rs`, `input.rs`: what the simulator shows for lights and log
    levels, and which keys quit it.
- `app/` is the simulator: terminal setup and drawing (ratatui, crossterm),
  the event loop and async flashers (tokio), the tracing layer, the real clock
  and command-line arguments (clap).
- `tests/` runs the library on concrete values.
