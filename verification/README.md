# vehicle_manager_axum

A small service library, verified with Verus.

- `src/redis_test.rs`: the key/value store behind the command loop
  (`Db`, `Command`, `Reply`, `apply_command`, `new_shared_db`) and the laws
  of the store (a `Get` after a `Put` gives back the stored bytes, and so on).
- `src/flexible_test.rs`: request routing and response building for the
  HTTP handlers, self-referencing values, `split_at_mut`, the greeting trait
  and small helpers.
- `src/box_rc_test.rs`: the message queue, the factory identifier counter,
  self-referencing values and the leaked configuration.
- `src/vehicle.rs`: vehicle records and the identifiers they receive.
- `app/`: the program around the library: logging set-up, the HTTP server,
  the socket loop of the key/value store, threads, timers and async code.
- `tests/`: tests of the library and of the std behaviour it is used with.
