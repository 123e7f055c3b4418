//! A verified USB host stack for the DWC2 controller: controller bring-up, transfers,
//! enumeration of a HID boot keyboard (directly or behind a hub) and keyboard input.
use vstd::prelude::*;

pub mod regs;
pub mod channel;
pub mod hcd;
pub mod transfer;
pub mod descriptors;
pub mod keyboard;
pub mod enumeration;
