use vstd::prelude::*;

use crate::device::{method_of, transition_method, ConnectedDevice, TransitionMethod};
use crate::error::DeviceError;
use crate::port::{
    build_serialport_builder, identity_present, listing_outcome, MatchStrategy, PortConfig,
};
use crate::{USB_DEFAULT_BAUD_RATE, USB_RPI_BOOTLOADER_BAUD_RATE};
use serialport::SerialPortInfo;

verus! {

/// How sending a command over the device protocol can fail.
#[derive(Clone, Debug, PartialEq, Eq)]
pub enum CommandFailure {
    /// The port could not be opened or configured.
    Serial(String),
    /// Reading the device's answer failed.
    Read(String),
    /// The device's answer could not be parsed.
    Json(String),
    /// The device answered something unexpected.
    Command(String),
    /// The device dropped the connection.
    BrokenPipe(String),
}

/// The one error that the host reports when a device resets itself while its
/// port is being opened at the reset-trigger baud rate: a generic I/O error.
pub open spec fn benign_disconnect(kind: serialport::ErrorKind) -> bool {
    kind == serialport::ErrorKind::Io(std::io::ErrorKind::Other)
}

/// Whether an error kind is the known artifact of a device vanishing mid-open.
pub fn is_benign_disconnect(kind: &serialport::ErrorKind) -> (r: bool)
    ensures
        r == benign_disconnect(*kind),
{
    match kind {
        serialport::ErrorKind::Io(std::io::ErrorKind::Other) => true,
        _ => false,
    }
}

pub open spec fn reset_outcome_of(opened: Result<(), serialport::Error>) -> Result<(), DeviceError> {
    match opened {
        Ok(()) => Ok(()),
        Err(e) => if benign_disconnect(e.kind) {
            Ok(())
        } else {
            Err(DeviceError::Transport(e.description))
        },
    }
}

/// What opening the port at the reset-trigger baud rate means: success, also
/// where the benign disconnect error came back; any other error is a transport failure.
pub fn reset_outcome(opened: Result<(), serialport::Error>) -> (r: Result<(), DeviceError>)
    ensures
        r == reset_outcome_of(opened),
        opened is Ok ==> r is Ok,
        opened is Err ==> (r is Ok <==> benign_disconnect(opened->Err_0.kind)),
        r is Err ==> r->Err_0 is Transport,
{
    match opened {
        Ok(()) => Ok(()),
        Err(e) => {
            if is_benign_disconnect(&e.kind) {
                Ok(())
            } else {
                Err(DeviceError::Transport(e.description))
            }
        },
    }
}

pub open spec fn command_outcome_of(sent: Result<(), CommandFailure>) -> Result<(), DeviceError> {
    match sent {
        Ok(()) => Ok(()),
        Err(CommandFailure::Serial(m)) => Err(DeviceError::Protocol(m)),
        Err(CommandFailure::Read(m)) => Err(DeviceError::Protocol(m)),
        Err(CommandFailure::Json(m)) => Err(DeviceError::Protocol(m)),
        Err(CommandFailure::Command(m)) => Err(DeviceError::Protocol(m)),
        Err(CommandFailure::BrokenPipe(m)) => Err(DeviceError::Protocol(m)),
    }
}

/// What the round trip of the "enter bootloader" command means: success where it
/// completed; otherwise a bootloader-entry failure of the protocol kind, whether the
/// protocol layer or the port beneath it failed. It never reads as the transport
/// failure of the reset path.
pub fn command_outcome(sent: Result<(), CommandFailure>) -> (r: Result<(), DeviceError>)
    ensures
        r == command_outcome_of(sent),
        sent is Ok <==> r is Ok,
        sent is Err ==> r is Err && r->Err_0 is Protocol,
{
    match sent {
        Ok(()) => Ok(()),
        Err(CommandFailure::Serial(m)) => Err(DeviceError::Protocol(m)),
        Err(CommandFailure::Read(m)) => Err(DeviceError::Protocol(m)),
        Err(CommandFailure::Json(m)) => Err(DeviceError::Protocol(m)),
        Err(CommandFailure::Command(m)) => Err(DeviceError::Protocol(m)),
        Err(CommandFailure::BrokenPipe(m)) => Err(DeviceError::Protocol(m)),
    }
}

/// The result of the reset-triggered transition: the binding failure as it came,
/// or, for the bound port, what opening it through `open` meant.
pub open spec fn reset_result<O: FnOnce(PortConfig) -> Result<(), serialport::Error>>(
    device: ConnectedDevice,
    listed: Result<Vec<SerialPortInfo>, serialport::Error>,
    strategy: MatchStrategy,
    open: O,
    r: Result<(), DeviceError>,
) -> bool {
    match listing_outcome(device, listed, strategy, USB_RPI_BOOTLOADER_BAUD_RATE) {
        Err(e) => r == Err::<(), DeviceError>(e),
        Ok(cfg) => exists|opened: Result<(), serialport::Error>|
            open.ensures((cfg,), opened) && r == #[trigger] reset_outcome_of(opened),
    }
}

/// The result of the protocol-driven transition: the binding failure as it came,
/// or, for the bound port, what the one call of `send` meant.
pub open spec fn command_result<F: FnOnce(PortConfig) -> Result<(), CommandFailure>>(
    device: ConnectedDevice,
    listed: Result<Vec<SerialPortInfo>, serialport::Error>,
    strategy: MatchStrategy,
    send: F,
    r: Result<(), DeviceError>,
) -> bool {
    match listing_outcome(device, listed, strategy, USB_DEFAULT_BAUD_RATE) {
        Err(e) => r == Err::<(), DeviceError>(e),
        Ok(cfg) => exists|sent: Result<(), CommandFailure>|
            send.ensures((cfg,), sent) && r == #[trigger] command_outcome_of(sent),
    }
}

/// The result of bringing the device into its bootloader by its family's method.
pub open spec fn transition_result<
    O: FnOnce(PortConfig) -> Result<(), serialport::Error>,
    F: FnOnce(PortConfig) -> Result<(), CommandFailure>,
>(
    device: ConnectedDevice,
    listed: Result<Vec<SerialPortInfo>, serialport::Error>,
    strategy: MatchStrategy,
    open: O,
    send: F,
    r: Result<(), DeviceError>,
) -> bool {
    match method_of(device.device_type) {
        None => r == Err::<(), DeviceError>(DeviceError::UnsupportedDevice),
        Some(TransitionMethod::BaudReset) => reset_result(device, listed, strategy, open, r),
        Some(TransitionMethod::Protocol) => command_result(device, listed, strategy, send, r),
    }
}

/// Resets an RP2040-based device into its bootloader: binds its port among the
/// listed ones at the reset-trigger baud rate and hands it to `open`, once. No
/// command is sent; where binding fails, nothing is opened.
pub fn enter_rpi_bootloader<O: FnOnce(PortConfig) -> Result<(), serialport::Error>>(
    device: &ConnectedDevice,
    listed: Result<Vec<SerialPortInfo>, serialport::Error>,
    strategy: MatchStrategy,
    open: O,
) -> (r: Result<(), DeviceError>)
    requires
        forall|cfg: PortConfig| open.requires((cfg,)),
    ensures
        reset_result(*device, listed, strategy, open, r),
        listed is Ok && !identity_present(*device, strategy) ==> r is Err && r->Err_0 is Resolution,
{
    match build_serialport_builder(device, listed, USB_RPI_BOOTLOADER_BAUD_RATE, strategy) {
        Ok(cfg) => {
            let opened = open(cfg);
            reset_outcome(opened)
        },
        Err(e) => Err(e),
    }
}

/// Sends the "enter bootloader" command to a protocol-capable device: binds its
/// port among the listed ones at the default baud rate and hands it to `send`,
/// once. Nothing is retried; where binding fails, nothing is sent.
pub fn enter_bridge_bootloader<F: FnOnce(PortConfig) -> Result<(), CommandFailure>>(
    device: &ConnectedDevice,
    listed: Result<Vec<SerialPortInfo>, serialport::Error>,
    strategy: MatchStrategy,
    send: F,
) -> (r: Result<(), DeviceError>)
    requires
        forall|cfg: PortConfig| send.requires((cfg,)),
    ensures
        command_result(*device, listed, strategy, send, r),
        listed is Ok && !identity_present(*device, strategy) ==> r is Err && r->Err_0 is Resolution,
{
    match build_serialport_builder(device, listed, USB_DEFAULT_BAUD_RATE, strategy) {
        Ok(cfg) => {
            let sent = send(cfg);
            command_outcome(sent)
        },
        Err(e) => Err(e),
    }
}

/// Brings the device into its bootloader by the method of its family:
/// `Bridge6` and `Bridge4` by the protocol command through `send`, `Click` and
/// `ULoop` by the baud-rate reset through `open`. Other families are refused.
pub fn transition_to_bootloader<
    O: FnOnce(PortConfig) -> Result<(), serialport::Error>,
    F: FnOnce(PortConfig) -> Result<(), CommandFailure>,
>(
    device: &ConnectedDevice,
    listed: Result<Vec<SerialPortInfo>, serialport::Error>,
    strategy: MatchStrategy,
    open: O,
    send: F,
) -> (r: Result<(), DeviceError>)
    requires
        forall|cfg: PortConfig| open.requires((cfg,)),
        forall|cfg: PortConfig| send.requires((cfg,)),
    ensures
        transition_result(*device, listed, strategy, open, send, r),
{
    match transition_method(&device.device_type) {
        Some(TransitionMethod::Protocol) => enter_bridge_bootloader(device, listed, strategy, send),
        Some(TransitionMethod::BaudReset) => enter_rpi_bootloader(device, listed, strategy, open),
        None => Err(DeviceError::UnsupportedDevice),
    }
}

} // verus!
