# type-c-service

Firmware updates of a Type-C controller over the Component Firmware Update
(CFU) protocol, verified with Verus.

* `src/` decides. A CFU command is answered in steps: each step names one
  operation for the caller to perform, or is the response. The library tracks
  the state of the update, counts ticks towards the timeout and drives the
  recovery of a controller whose update has failed. `src/run.rs` states what
  each command does from its first step to its response, `src/laws.rs` what
  holds of updates as a whole.
* `app/` acts. It performs the operations on the hardware, waits for requests
  and ticks, and hands the outcomes back to the library.
* `tests/` runs the library against scripted hardware.
