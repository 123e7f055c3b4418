# rust_usb

A USB host stack for the Synopsys DesignWare USB 2.0 OTG controller (DWC2) of the
Raspberry Pi 3, enough to find and read a HID boot keyboard, directly on the root port
or behind a hub. The library is written in Verus and every function in `src/` carries a
proved contract.

The library never touches the hardware. Every controller routine yields the register
operations to perform (`regs::BusOp`: writes, read-modify-writes, delays), and every
decision that depends on a value read from the controller or on the outcome of a
transfer is a function of that value:

- `regs`: register map and the `BusOp` operations.
- `channel`: host channel configuration, transfer start, and the wait for a channel
  to complete (`wait_channel_complete`, one register read at a time).
- `transfer`: `TransferRun`, which runs the phases of a transfer in order, one
  channel read at a time, and ends at the first failing phase.
- `hcd`: controller bring-up (core reset as a step machine, PHY and host
  initialization, port reset) and the phases of control and interrupt transfers.
- `descriptors`: SETUP packets and the walk of a configuration descriptor for a boot
  keyboard interface.
- `enumeration`: the standard, HID and hub requests, and `Enumerator`, the
  enumeration of a keyboard as a step machine over transfer outcomes.
- `keyboard`: boot-protocol reports, key translation and the type-ahead buffer;
  `Keyboard::poll` is a step machine over report transfers.

`app/` holds what runs on the machine: volatile register access, DMA buffers, delays,
UART logging, global state, and the C entry points that drive the step machines.
