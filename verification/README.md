# kinetis_usb

A USB device stack for the USB-OTG block of Freescale Kinetis
microcontrollers, verified with Verus.

- `src/` is the verified library. Operations that drive the hardware return
  the register accesses that perform them (`regs::RegOp`), so the register
  programs, the buffer descriptor table layout, the endpoint stream
  bookkeeping, the device state machine and the decoding of setup packets
  and status registers all carry contracts.
  - `regs`: register access descriptions and read-modify-write arithmetic.
  - `sim`: clock enable bits and the USB clock source.
  - `stream`: the data stream of one endpoint.
  - `usb`: PIDs, the peripheral and endpoint-handler interfaces, the device
    module and endpoint buffer states.
  - `control`: endpoint 0 and setup packet decoding.
  - `freescale`: the Kinetis USB block and its buffer descriptor table.
- `app/` performs the register accesses with volatile loads and stores,
  owns the device singleton and runs the interrupt handler.
- `tests/` exercises the library on concrete values.
