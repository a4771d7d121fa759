//! The serial-port types of the `serialport` crate that the library reads.
use vstd::prelude::*;

verus! {

/// `serialport::SerialPortInfo`: a listed port, its name and how it is attached.
#[verifier::external_type_specification]
pub struct ExSerialPortInfo(serialport::SerialPortInfo);

/// `serialport::SerialPortType`: USB, PCI, Bluetooth or unknown attachment.
#[verifier::external_type_specification]
pub struct ExSerialPortType(serialport::SerialPortType);

/// `serialport::UsbPortInfo`: the identifiers that a USB-backed port reports.
#[verifier::external_type_specification]
pub struct ExUsbPortInfo(serialport::UsbPortInfo);

/// `std::io::ErrorKind`: the kind of an I/O error.
#[verifier::external_type_specification]
pub struct ExIoErrorKind(std::io::ErrorKind);

/// `serialport::ErrorKind`: the kind of a serial-port error.
#[verifier::external_type_specification]
pub struct ExSerialErrorKind(serialport::ErrorKind);

/// `serialport::Error`: a serial-port error, its kind and description.
#[verifier::external_type_specification]
pub struct ExSerialError(serialport::Error);

} // verus!
