# i2c_slave

A verified core of an I2C slave driver for ESP32-C6 class controllers.

The drivers work on `regs::I2cRegisters`, a plain-value model of the
controller's register block and FIFOs, so that every register update they make
is stated in a contract and proved with Verus.

- `src/slave` — the polling driver: configuration, address handling, reads
  (split into start, poll and finish steps), writes, interrupt events and the
  interrupt-driven waits of its asynchronous mode.
- `src/slave_async` — the interrupt-driven driver: the shared transaction
  state, the interrupt handler and the read and write futures.
- `src/helpers` — a software master and data-pattern utilities.
- `src/responder` — the command protocols of the test firmware.
- `src/text` — decimal and hexadecimal text of numbers, as the mismatch
  messages write them.
- `app/` — the loops that wait on the hardware, the futures as `async`
  functions, the state shared with the interrupt routine behind critical
  sections, and the `SetConfig` impls.
