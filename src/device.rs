use vstd::prelude::*;

verus! {

/// The hardware families that the application knows.
#[derive(Clone, Copy, Debug, PartialEq, Eq, Structural)]
pub enum ConnectedDeviceType {
    Bridge6,
    Bridge4,
    Click,
    ULoop,
    Unknown,
}

/// One physically attached unit, as upstream enumeration describes it.
#[derive(Clone, Debug, PartialEq, Eq)]
pub struct ConnectedDevice {
    pub device_type: Option<ConnectedDeviceType>,
    /// Product string reported over USB.
    pub description: Option<String>,
    /// Hardware serial number.
    pub serial_number: Option<String>,
}

/// The two ways of bringing a device into its bootloader.
#[derive(Clone, Copy, Debug, PartialEq, Eq, Structural)]
pub enum TransitionMethod {
    /// Send the "enter bootloader" control command over the device protocol.
    Protocol,
    /// Open the port at the reset-trigger baud rate; opening is the signal.
    BaudReset,
}

/// The kind of firmware image a device family takes.
#[derive(Clone, Copy, Debug, PartialEq, Eq, Structural)]
pub enum FirmwareFormat {
    Bin,
    Uf2,
}

/// The transition method of each device family; `None` for families without one.
pub open spec fn method_of(t: Option<ConnectedDeviceType>) -> Option<TransitionMethod> {
    match t {
        Some(ConnectedDeviceType::Bridge6) | Some(ConnectedDeviceType::Bridge4) => Some(
            TransitionMethod::Protocol,
        ),
        Some(ConnectedDeviceType::Click) | Some(ConnectedDeviceType::ULoop) => Some(
            TransitionMethod::BaudReset,
        ),
        _ => None,
    }
}

/// The firmware format of each device family; `None` where it is not known.
pub open spec fn format_of(t: Option<ConnectedDeviceType>) -> Option<FirmwareFormat> {
    match method_of(t) {
        Some(TransitionMethod::Protocol) => Some(FirmwareFormat::Bin),
        Some(TransitionMethod::BaudReset) => Some(FirmwareFormat::Uf2),
        None => None,
    }
}

/// Looks up how a device family enters its bootloader.
pub fn transition_method(t: &Option<ConnectedDeviceType>) -> (r: Option<TransitionMethod>)
    ensures
        r == method_of(*t),
{
    match t {
        Some(ConnectedDeviceType::Bridge6) | Some(ConnectedDeviceType::Bridge4) => Some(
            TransitionMethod::Protocol,
        ),
        Some(ConnectedDeviceType::Click) | Some(ConnectedDeviceType::ULoop) => Some(
            TransitionMethod::BaudReset,
        ),
        _ => None,
    }
}

/// Looks up which firmware format a device family takes.
pub fn firmware_format(t: &Option<ConnectedDeviceType>) -> (r: Option<FirmwareFormat>)
    ensures
        r == format_of(*t),
{
    match transition_method(t) {
        Some(TransitionMethod::Protocol) => Some(FirmwareFormat::Bin),
        Some(TransitionMethod::BaudReset) => Some(FirmwareFormat::Uf2),
        None => None,
    }
}

impl TransitionMethod {
    /// The baud rate at which the device's port is bound for this method.
    pub open spec fn spec_baud_rate(self) -> u32 {
        match self {
            TransitionMethod::Protocol => crate::USB_DEFAULT_BAUD_RATE,
            TransitionMethod::BaudReset => crate::USB_RPI_BOOTLOADER_BAUD_RATE,
        }
    }

    pub fn baud_rate(&self) -> (r: u32)
        ensures
            r == self.spec_baud_rate(),
    {
        match self {
            TransitionMethod::Protocol => crate::USB_DEFAULT_BAUD_RATE,
            TransitionMethod::BaudReset => crate::USB_RPI_BOOTLOADER_BAUD_RATE,
        }
    }
}

impl FirmwareFormat {
    /// The file extension that a file picker filters on.
    pub fn extension(&self) -> (r: &'static str)
        ensures
            *self == FirmwareFormat::Bin ==> r@ == "bin"@,
            *self == FirmwareFormat::Uf2 ==> r@ == "uf2"@,
    {
        match self {
            FirmwareFormat::Bin => "bin",
            FirmwareFormat::Uf2 => "uf2",
        }
    }
}

} // verus!
