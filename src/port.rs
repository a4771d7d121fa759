use vstd::prelude::*;

use crate::device::ConnectedDevice;
use crate::error::{DeviceError, ResolveError};
use serialport::{SerialPortInfo, SerialPortType, UsbPortInfo};

verus! {

/// Whether `prefix` begins `s`, compared character by character.
fn has_prefix(s: &str, prefix: &str) -> (r: bool)
    ensures
        r == prefix@.is_prefix_of(s@),
{
    let n = prefix.unicode_len();
    if n > s.unicode_len() {
        return false;
    }
    let mut i: usize = 0;
    while i < n
        invariant
            n == prefix@.len(),
            n <= s@.len(),
            i <= n,
            forall|j: int| 0 <= j < i ==> prefix@[j] == s@[j],
        decreases n - i,
    {
        if prefix.get_char(i) != s.get_char(i) {
            return false;
        }
        i = i + 1;
    }
    assert(prefix@ =~= s@.subrange(0, n as int));
    true
}

/// How a port is recognised as the device's own; the host family decides which
/// metadata is reliable enough to match on.
#[derive(Clone, Copy, Debug, PartialEq, Eq, Structural)]
pub enum MatchStrategy {
    /// The device's description begins the port's USB product string.
    ProductPrefix,
    /// The device's serial number equals the port's USB serial number.
    SerialNumber,
}

/// An unopened port: which one, and at what baud rate.
#[derive(Clone, Debug, PartialEq, Eq)]
pub struct PortConfig {
    pub port_name: String,
    pub baud_rate: u32,
}

/// The device carries the identity field that the strategy reads.
pub open spec fn identity_present(device: ConnectedDevice, strategy: MatchStrategy) -> bool {
    match strategy {
        MatchStrategy::ProductPrefix => device.description is Some,
        MatchStrategy::SerialNumber => device.serial_number is Some,
    }
}

pub open spec fn is_usb(p: SerialPortInfo) -> bool {
    p.port_type is UsbPort
}

pub open spec fn has_usb_port(ports: Seq<SerialPortInfo>) -> bool {
    exists|i: int| 0 <= i < ports.len() && #[trigger] is_usb(ports[i])
}

/// The USB metadata of a port identifies the device under the strategy.
pub open spec fn usb_matches(
    device: ConnectedDevice,
    info: UsbPortInfo,
    strategy: MatchStrategy,
) -> bool {
    match strategy {
        MatchStrategy::ProductPrefix => {
            &&& device.description is Some
            &&& info.product is Some
            &&& device.description->0@.is_prefix_of(info.product->0@)
        },
        MatchStrategy::SerialNumber => {
            &&& device.serial_number is Some
            &&& info.serial_number is Some
            &&& info.serial_number->0@ == device.serial_number->0@
        },
    }
}

/// A port belongs to the device: it is USB-backed and its metadata matches.
pub open spec fn port_matches(
    device: ConnectedDevice,
    p: SerialPortInfo,
    strategy: MatchStrategy,
) -> bool {
    match p.port_type {
        SerialPortType::UsbPort(info) => usb_matches(device, info, strategy),
        _ => false,
    }
}

/// Port `k` is the first, in listing order, that belongs to the device.
pub open spec fn is_first_match(
    device: ConnectedDevice,
    ports: Seq<SerialPortInfo>,
    strategy: MatchStrategy,
    k: int,
) -> bool {
    &&& 0 <= k < ports.len()
    &&& port_matches(device, ports[k], strategy)
    &&& forall|j: int| 0 <= j < k ==> !port_matches(device, #[trigger] ports[j], strategy)
}

pub open spec fn has_match(
    device: ConnectedDevice,
    ports: Seq<SerialPortInfo>,
    strategy: MatchStrategy,
) -> bool {
    exists|i: int| 0 <= i < ports.len() && port_matches(device, #[trigger] ports[i], strategy)
}

/// The outcome of binding the device to one of the listed ports.
pub open spec fn resolution(
    device: ConnectedDevice,
    ports: Seq<SerialPortInfo>,
    strategy: MatchStrategy,
    baud_rate: u32,
) -> Result<PortConfig, ResolveError> {
    if ports.len() == 0 {
        Err(ResolveError::NoPorts)
    } else if !identity_present(device, strategy) && has_usb_port(ports) {
        Err(ResolveError::MetadataMissing)
    } else if has_match(device, ports, strategy) {
        let k = choose|k: int| is_first_match(device, ports, strategy, k);
        Ok(PortConfig { port_name: ports[k].port_name, baud_rate })
    } else {
        Err(ResolveError::NoMatch)
    }
}

proof fn lemma_first_match_unique(
    device: ConnectedDevice,
    ports: Seq<SerialPortInfo>,
    strategy: MatchStrategy,
    a: int,
    b: int,
)
    requires
        is_first_match(device, ports, strategy, a),
        is_first_match(device, ports, strategy, b),
    ensures
        a == b,
{
    if a < b {
        assert(!port_matches(device, ports[a], strategy));
    } else if b < a {
        assert(!port_matches(device, ports[b], strategy));
    }
}

/// Whether the USB metadata of a port identifies the device.
pub fn usb_info_matches(device: &ConnectedDevice, info: &UsbPortInfo, strategy: MatchStrategy) -> (r:
    bool)
    ensures
        r == usb_matches(*device, *info, strategy),
{
    match strategy {
        MatchStrategy::ProductPrefix => match (&device.description, &info.product) {
            (Some(description), Some(product)) => has_prefix(product.as_str(), description.as_str()),
            _ => false,
        },
        MatchStrategy::SerialNumber => match (&device.serial_number, &info.serial_number) {
            (Some(wanted), Some(reported)) => *reported == *wanted,
            _ => false,
        },
    }
}

/// Binds the device to one of the listed ports, at the given baud rate.
///
/// Ports that are not USB-backed are never chosen. With no port listed the
/// result is `NoPorts`; where USB ports exist but the device lacks the field
/// that the strategy reads, `MetadataMissing`; otherwise the first matching
/// port in listing order, or `NoMatch`.
///
/// Where several ports match, the first listed one is taken. Whether such a tie
/// should rather be refused as ambiguous is an open product question; until it
/// is settled, listing order decides.
pub fn resolve_port(
    device: &ConnectedDevice,
    ports: &Vec<SerialPortInfo>,
    strategy: MatchStrategy,
    baud_rate: u32,
) -> (r: Result<PortConfig, ResolveError>)
    ensures
        r == resolution(*device, ports@, strategy, baud_rate),
{
    if ports.len() == 0 {
        return Err(ResolveError::NoPorts);
    }
    let present = match strategy {
        MatchStrategy::ProductPrefix => device.description.is_some(),
        MatchStrategy::SerialNumber => device.serial_number.is_some(),
    };
    let mut seen_usb = false;
    let mut i: usize = 0;
    while i < ports.len()
        invariant
            0 <= i <= ports.len(),
            present == identity_present(*device, strategy),
            seen_usb <==> exists|j: int| 0 <= j < i && #[trigger] is_usb(ports@[j]),
            forall|j: int| 0 <= j < i ==> !port_matches(*device, #[trigger] ports@[j], strategy),
        decreases ports.len() - i,
    {
        let p = &ports[i];
        match &p.port_type {
            SerialPortType::UsbPort(info) => {
                seen_usb = true;
                assert(is_usb(ports@[i as int]));
                if present && usb_info_matches(device, info, strategy) {
                    proof {
                        assert(is_first_match(*device, ports@, strategy, i as int));
                        let k = choose|k: int| is_first_match(*device, ports@, strategy, k);
                        lemma_first_match_unique(*device, ports@, strategy, k, i as int);
                    }
                    return Ok(PortConfig { port_name: p.port_name.clone(), baud_rate });
                }
            },
            _ => {
                assert(!is_usb(ports@[i as int]));
            },
        }
        i = i + 1;
    }
    if !present && seen_usb {
        Err(ResolveError::MetadataMissing)
    } else {
        Err(ResolveError::NoMatch)
    }
}

/// What binding the device gives, from what the host listed: a failure to
/// list is an enumeration failure carrying its description; otherwise the
/// resolution over the listed ports.
pub open spec fn listing_outcome(
    device: ConnectedDevice,
    listed: Result<Vec<SerialPortInfo>, serialport::Error>,
    strategy: MatchStrategy,
    baud_rate: u32,
) -> Result<PortConfig, DeviceError> {
    match listed {
        Err(e) => Err(DeviceError::Enumeration(e.description)),
        Ok(ports) => match resolution(device, ports@, strategy, baud_rate) {
            Ok(cfg) => Ok(cfg),
            Err(e) => Err(DeviceError::Resolution(e)),
        },
    }
}

/// Binds the device to one of the ports that the host listed, or reports why
/// the listing or the binding failed. Nothing is opened.
pub fn build_serialport_builder(
    device: &ConnectedDevice,
    listed: Result<Vec<SerialPortInfo>, serialport::Error>,
    baud_rate: u32,
    strategy: MatchStrategy,
) -> (r: Result<PortConfig, DeviceError>)
    ensures
        r == listing_outcome(*device, listed, strategy, baud_rate),
        r is Err ==> r->Err_0 is Enumeration || r->Err_0 is Resolution,
        listed is Ok && !identity_present(*device, strategy) ==> r is Err,
{
    match listed {
        Ok(ports) => match resolve_port(device, &ports, strategy, baud_rate) {
            Ok(cfg) => Ok(cfg),
            Err(e) => Err(DeviceError::Resolution(e)),
        },
        Err(e) => Err(DeviceError::Enumeration(e.description)),
    }
}

/// With no port listed, resolution fails with `NoPorts`, a resolution failure,
/// whatever the device, strategy and baud rate.
pub proof fn lemma_no_ports_is_resolution_failure(
    device: ConnectedDevice,
    ports: Seq<SerialPortInfo>,
    strategy: MatchStrategy,
    baud_rate: u32,
)
    requires
        ports.len() == 0,
    ensures
        resolution(device, ports, strategy, baud_rate) == Err::<PortConfig, ResolveError>(
            ResolveError::NoPorts,
        ),
{
}

/// A device with neither a description nor a serial number cannot be bound
/// under either strategy: where USB ports are listed, resolution fails with
/// `MetadataMissing`, even if one of them is the device's.
pub proof fn lemma_missing_identity_is_metadata_failure(
    device: ConnectedDevice,
    ports: Seq<SerialPortInfo>,
    strategy: MatchStrategy,
    baud_rate: u32,
)
    requires
        device.description is None,
        device.serial_number is None,
        has_usb_port(ports),
    ensures
        resolution(device, ports, strategy, baud_rate) == Err::<PortConfig, ResolveError>(
            ResolveError::MetadataMissing,
        ),
{
}

/// A resolved port is one of the listed ports, USB-backed and matching the
/// device, at the requested baud rate; no earlier port matches.
pub proof fn lemma_resolved_port_is_first_match(
    device: ConnectedDevice,
    ports: Seq<SerialPortInfo>,
    strategy: MatchStrategy,
    baud_rate: u32,
)
    requires
        resolution(device, ports, strategy, baud_rate) is Ok,
    ensures
        exists|k: int|
            is_first_match(device, ports, strategy, k) && is_usb(#[trigger] ports[k])
                && resolution(device, ports, strategy, baud_rate) == Ok::<PortConfig, ResolveError>(
                PortConfig { port_name: ports[k].port_name, baud_rate },
            ),
{
    let i = choose|i: int| 0 <= i < ports.len() && port_matches(device, #[trigger] ports[i], strategy);
    lemma_first_match_exists(device, ports, strategy, i);
    let k = choose|k: int| is_first_match(device, ports, strategy, k);
    assert(is_usb(ports[k]));
}

proof fn lemma_first_match_exists(
    device: ConnectedDevice,
    ports: Seq<SerialPortInfo>,
    strategy: MatchStrategy,
    i: int,
)
    requires
        0 <= i < ports.len(),
        port_matches(device, ports[i], strategy),
    ensures
        exists|k: int| is_first_match(device, ports, strategy, k),
    decreases i,
{
    if exists|j: int| 0 <= j < i && port_matches(device, #[trigger] ports[j], strategy) {
        let j = choose|j: int| 0 <= j < i && port_matches(device, #[trigger] ports[j], strategy);
        lemma_first_match_exists(device, ports, strategy, j);
    } else {
        assert(is_first_match(device, ports, strategy, i));
    }
}

} // verus!
