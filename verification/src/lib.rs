//! Verified core of a small USB device stack for Freescale Kinetis parts:
//! register programs for the clock enable bits and the USB-OTG block, the
//! buffer descriptor table layout, the data stream bookkeeping of an
//! endpoint, the device state machine and the decoding of control requests.
//!
//! Every operation that touches hardware returns the register accesses
//! that perform it, as a list of [`regs::RegOp`]; performing them (volatile
//! loads and stores) is left to the caller.

pub mod regs;
pub mod sim;
pub mod stream;
pub mod usb;
pub mod control;
pub mod freescale;
