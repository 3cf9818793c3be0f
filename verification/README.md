# touchboard

Firmware of an RP2350 touch keyboard board: four AT42QT1070 touch sensors behind a PCA9544
multiplexer, a small display, a row of RGBW pixels, a status light and MIDI over USB.

`src/` holds the decisions, verified with Verus. Each task is a machine that says what has to be
done now and takes what came of it:

- `bus`, `devices`: the I2C transfers that the multiplexer and the sensors need, and what a reply
  means.
- `i2c_task`, `i2c_laws`: set-up, display and scan on the I2C bus, and what they amount to over
  many steps.
- `ui_task`, `buffers`: drawing, and the way of the two display buffers between the two tasks.
- `led`, `status`, `shared`: the status light, the two numbers that it shows, and the shared bytes
  that hold them.
- `midi`: the scale that the board plays, and the messages it understands.
- `neopixel`: the rainbow.

`app/` brings up the peripherals and runs the machines: it makes the transfers, waits, and owns
the two shared bytes. The driver of the display, the pictures and the colour wheel are linked in through
`take_screen` (see `app/screen.rs`).

`Cargo.toml` asks for the features that let everything build on a development machine. On the board,
`embassy-executor` takes `platform-cortex-m`, and `embassy-rp` leaves `_test` out. The library uses
nothing beyond `core`, but it is set up as a hosted crate: a build for the board also has to mark it
`no_std` and to take `vstd` without `std`.
