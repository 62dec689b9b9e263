# embassy-stm32f469i-disco

Board support for the STM32F469I-Discovery board, split in two:

- `src/` — the board's logic, verified with Verus: display geometry, LTDC and
  DSI timing and global settings, DSI bring-up timeouts, pixel formats and
  framebuffer drawing, framebuffer size and alignment checks, NT35510/OTM8009A
  panel detection, FT6X06 touch decoding, edge filtering and text, clock
  presets and their frequencies, SDRAM regions and smoke test, USB
  packetisation with zero-length-packet termination, bounded status polling,
  boot self-test results and the USB echo load-test bookkeeping.
- `app/` — the hardware side in plain Rust on embassy-stm32: register
  programming, peripheral ownership, I2C/DSI/UART transfers, the
  `embedded-graphics` draw target, async USB plumbing and the set-up of the USB
  load-test firmware, each driven by the functions of `src/`.

`tests/` exercises the library on concrete values.
