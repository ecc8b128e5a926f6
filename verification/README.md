# mlx9064x

A verified register model and protocol core for the MLX90640 and MLX90641
thermal cameras, with an async I²C driver around it.

- `src/register.rs`: the status register (0x8000) and the first control
  register (0x800D) as 16-bit words, with field accessors whose contracts state
  the bits each field occupies, that a write changes only its own field, and
  that a field already holding a value needs no write.
- `src/wire.rs`: the big-endian byte frames of register reads and writes.
- `src/camera.rs`: the two camera models, their power-on control register,
  which pixels each subpage refreshes in each access pattern, and the ADC
  resolution correction.
- `src/driver.rs`: the settings the driver caches, and the decision of which
  register value, if any, to write for a setting.
- `src/protocol.rs`: `synchronize` and `generate_image_if_ready` as step
  functions from state and bus event to next state and bus action, with laws
  over whole runs, including that a failed transfer ends the operation with
  nothing more on the bus.
- `app/`: the async driver itself, which performs the I²C transfers, keeps the
  floating-point settings and calls the calibration's conversion routines.
