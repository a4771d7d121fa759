use vstd::prelude::*;

use crate::bootloader::{transition_result, transition_to_bootloader, CommandFailure};
use serialport::SerialPortInfo;
use crate::device::ConnectedDevice;
use crate::error::DeviceError;
use crate::port::{MatchStrategy, PortConfig};

verus! {

/// What a file picker handed back.
#[derive(Clone, Debug, PartialEq, Eq)]
pub enum FileSelection {
    /// One file, by its path.
    Single(String),
    /// Several files; this flow takes exactly one.
    Multiple(Vec<String>),
    /// The picker was closed, or failed, without a choice.
    Cancelled,
}

/// A firmware image published remotely.
#[derive(Clone, Debug, PartialEq, Eq)]
pub struct Asset {
    pub name: String,
    pub url: String,
}

/// Installs a firmware image from a local file: where exactly one file was
/// chosen, the device is brought into its bootloader among the `listed` ports,
/// and the transition's result, success or failure, is returned as it came;
/// otherwise nothing is done and the selection failure is returned.
pub fn local_binary<
    O: FnOnce(PortConfig) -> Result<(), serialport::Error>,
    F: FnOnce(PortConfig) -> Result<(), CommandFailure>,
>(
    device: ConnectedDevice,
    selection: FileSelection,
    listed: Result<Vec<SerialPortInfo>, serialport::Error>,
    strategy: MatchStrategy,
    open: O,
    send: F,
) -> (r: Result<(), DeviceError>)
    requires
        forall|cfg: PortConfig| open.requires((cfg,)),
        forall|cfg: PortConfig| send.requires((cfg,)),
    ensures
        !(selection is Single) ==> r == Err::<(), DeviceError>(DeviceError::Selection),
        selection is Single ==> transition_result(device, listed, strategy, open, send, r),
{
    match selection {
        FileSelection::Single(_path) => transition_to_bootloader(&device, listed, strategy, open, send),
        _ => Err(DeviceError::Selection),
    }
}

/// Installs a remotely published firmware image. Not implemented yet: it does
/// nothing and reports success.
pub fn remote_binary(device: ConnectedDevice, asset: Asset) -> (r: Result<(), DeviceError>)
    ensures
        r == Ok::<(), DeviceError>(()),
{
    Ok(())
}

} // verus!
