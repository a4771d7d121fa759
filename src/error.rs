use vstd::prelude::*;

verus! {

/// Why no single port could be bound to a device.
#[derive(Clone, Copy, Debug, PartialEq, Eq, Structural)]
pub enum ResolveError {
    /// The host lists no serial port at all.
    NoPorts,
    /// USB ports exist, but the device lacks the identity field that the matching rule reads.
    MetadataMissing,
    /// Ports exist, but none of them belongs to the device.
    NoMatch,
}

/// The failures of discovery, transition and installation.
#[derive(Clone, Debug, PartialEq, Eq)]
pub enum DeviceError {
    /// The host could not list its serial ports.
    Enumeration(String),
    /// The ports were listed, but none could be bound to the device.
    Resolution(ResolveError),
    /// The bootloader command was sent, and the device's protocol layer failed.
    Protocol(String),
    /// Opening or writing the port failed.
    Transport(String),
    /// No local firmware file was chosen.
    Selection,
    /// The device's family has no known way into its bootloader.
    UnsupportedDevice,
}

} // verus!
