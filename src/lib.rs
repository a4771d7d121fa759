//! Finding an attached Pirate MIDI device among the host's serial ports and
//! moving it from its normal mode into its firmware-update (bootloader) mode.
use vstd::prelude::*;

pub mod bootloader;
pub mod device;
pub mod error;
pub mod install;
pub mod port;
pub mod serial;

verus! {

/// Baud rate of normal communication with a device.
pub const USB_DEFAULT_BAUD_RATE: u32 = 9600;

/// Baud rate whose mere opening resets an RP2040-based device into its bootloader.
pub const USB_RPI_BOOTLOADER_BAUD_RATE: u32 = 1200;

} // verus!
