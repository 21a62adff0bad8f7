# foc_firmware

Field-oriented motor control firmware for an STM32 board, with the parts
that decide things written in Verus and proved against their contracts.

## Layout

- `src/` is the verified library. It holds everything that is integer,
  byte or state logic:
  - `parameters`, `profile`, `motor_param`: the parameter catalogue, the
    control profile and the identified motor record, with their payload
    encodings (single-precision values are carried as their bit patterns);
  - `parameter_store`: the power-loss-safe dual-slot flash store, generic
    over the record type and the flash backend;
  - `parameter_service`, `requests`: the live parameter set and the
    handling of parameter requests from the console and the CAN bus,
    including the replay of repeated CAN requests;
  - `comm`, `console`, `text`: CAN frames, the UART console grammar and
    line assembly, and the console replies;
  - `supervisor`, `queue`, `hall`, `autotune`, `interfaces`: motor state
    and fault latching, the request queue, Hall-sensor sectors, and the
    steps, errors and request queue of the motor identification procedure.
- `tests/` runs the library on concrete values.
- `app/` is ordinary Rust around the library: the single-precision control
  loop, PID and identification maths, the board support and the async
  tasks. It calls the library for every decision listed above.

## Checking

Verus verifies `src/`; the tests run with `cargo test`. The board build of
`app/` needs the embassy crates and `embedded-alloc` for the target and is
not built on a host. The library keeps its buffers in `Vec` and builds
against `std`.
