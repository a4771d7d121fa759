use pirate_bootloader::device::{ConnectedDevice, ConnectedDeviceType};
use pirate_bootloader::error::{DeviceError, ResolveError};
use pirate_bootloader::port::{build_serialport_builder, resolve_port, MatchStrategy, PortConfig};
use pirate_bootloader::USB_DEFAULT_BAUD_RATE;
use serialport::{SerialPortInfo, SerialPortType, UsbPortInfo};

fn usb_port(name: &str, product: Option<&str>, serial: Option<&str>) -> SerialPortInfo {
    SerialPortInfo {
        port_name: name.to_string(),
        port_type: SerialPortType::UsbPort(UsbPortInfo {
            vid: 0x0483,
            pid: 0x5740,
            serial_number: serial.map(|s| s.to_string()),
            manufacturer: None,
            product: product.map(|s| s.to_string()),
        }),
    }
}

fn device(description: Option<&str>, serial: Option<&str>) -> ConnectedDevice {
    ConnectedDevice {
        device_type: Some(ConnectedDeviceType::Bridge6),
        description: description.map(|s| s.to_string()),
        serial_number: serial.map(|s| s.to_string()),
    }
}

fn config(name: &str, baud_rate: u32) -> PortConfig {
    PortConfig { port_name: name.to_string(), baud_rate }
}

#[test]
fn product_prefix_selects_matching_port() {
    let ports = vec![
        usb_port("COM3", Some("Bridge6-Foo"), None),
        usb_port("COM4", Some("Other-Device"), None),
    ];
    let r = resolve_port(&device(Some("Bridge6"), None), &ports, MatchStrategy::ProductPrefix, 9600);
    assert_eq!(r, Ok(config("COM3", 9600)));
}

#[test]
fn product_prefix_looks_past_other_products() {
    let ports = vec![
        usb_port("COM4", Some("Other-Device"), None),
        usb_port("COM3", Some("Bridge6-Foo"), None),
    ];
    let r = resolve_port(&device(Some("Bridge6"), None), &ports, MatchStrategy::ProductPrefix, 1200);
    assert_eq!(r, Ok(config("COM3", 1200)));
}

#[test]
fn product_prefix_needs_whole_description() {
    let ports = vec![usb_port("COM3", Some("Bridge"), None)];
    let r = resolve_port(&device(Some("Bridge6"), None), &ports, MatchStrategy::ProductPrefix, 9600);
    assert_eq!(r, Err(ResolveError::NoMatch));
}

#[test]
fn product_prefix_skips_ports_without_product() {
    let ports = vec![
        usb_port("COM2", None, Some("AA11")),
        usb_port("COM3", Some("Bridge6-Foo"), None),
    ];
    let r = resolve_port(&device(Some("Bridge6"), None), &ports, MatchStrategy::ProductPrefix, 9600);
    assert_eq!(r, Ok(config("COM3", 9600)));
}

#[test]
fn product_prefix_first_match_wins() {
    let ports = vec![
        usb_port("COM5", Some("Bridge6-A"), None),
        usb_port("COM6", Some("Bridge6-B"), None),
    ];
    let r = resolve_port(&device(Some("Bridge6"), None), &ports, MatchStrategy::ProductPrefix, 9600);
    assert_eq!(r, Ok(config("COM5", 9600)));
}

#[test]
fn serial_number_selects_exact_match() {
    let ports = vec![
        usb_port("/dev/ttyACM0", None, Some("AA11")),
        usb_port("/dev/ttyACM1", None, Some("BB22")),
    ];
    let r = resolve_port(&device(None, Some("BB22")), &ports, MatchStrategy::SerialNumber, 9600);
    assert_eq!(r, Ok(config("/dev/ttyACM1", 9600)));
}

#[test]
fn serial_number_without_match_fails() {
    let ports = vec![
        usb_port("/dev/ttyACM0", None, Some("AA11")),
        usb_port("/dev/ttyACM1", None, Some("BB22")),
    ];
    let r = resolve_port(&device(None, Some("CC33")), &ports, MatchStrategy::SerialNumber, 9600);
    assert_eq!(r, Err(ResolveError::NoMatch));
}

#[test]
fn serial_number_is_not_a_prefix_match() {
    let ports = vec![usb_port("/dev/ttyACM0", None, Some("BB22-X"))];
    let r = resolve_port(&device(None, Some("BB22")), &ports, MatchStrategy::SerialNumber, 9600);
    assert_eq!(r, Err(ResolveError::NoMatch));
}

#[test]
fn no_ports_is_resolution_failure() {
    let ports: Vec<SerialPortInfo> = Vec::new();
    for strategy in [MatchStrategy::ProductPrefix, MatchStrategy::SerialNumber] {
        let r = resolve_port(&device(Some("Bridge6"), Some("AA11")), &ports, strategy, 9600);
        assert_eq!(r, Err(ResolveError::NoPorts));
    }
}

#[test]
fn missing_identity_is_metadata_failure() {
    let ports = vec![usb_port("COM3", Some("Bridge6-Foo"), None), usb_port("COM4", None, None)];
    for strategy in [MatchStrategy::ProductPrefix, MatchStrategy::SerialNumber] {
        let r = resolve_port(&device(None, None), &ports, strategy, 9600);
        assert_eq!(r, Err(ResolveError::MetadataMissing));
    }
}

#[test]
fn non_usb_ports_are_ignored() {
    let ports = vec![
        SerialPortInfo { port_name: "/dev/ttyS0".to_string(), port_type: SerialPortType::PciPort },
        SerialPortInfo {
            port_name: "/dev/rfcomm0".to_string(),
            port_type: SerialPortType::BluetoothPort,
        },
    ];
    let r = resolve_port(&device(Some("Bridge6"), Some("AA11")), &ports, MatchStrategy::SerialNumber, 9600);
    assert_eq!(r, Err(ResolveError::NoMatch));
    let r = resolve_port(&device(None, None), &ports, MatchStrategy::ProductPrefix, 9600);
    assert_eq!(r, Err(ResolveError::NoMatch));
}

#[test]
fn listing_failure_is_enumeration_failure() {
    let e = serialport::Error::new(serialport::ErrorKind::Unknown, "cannot read port list");
    for strategy in [MatchStrategy::ProductPrefix, MatchStrategy::SerialNumber] {
        let r = build_serialport_builder(&device(Some("Bridge6"), Some("AA11")), Err(e.clone()), USB_DEFAULT_BAUD_RATE, strategy);
        assert_eq!(r, Err(DeviceError::Enumeration("cannot read port list".to_string())));
    }
}

#[test]
fn listed_ports_are_resolved() {
    let ports = vec![usb_port("/dev/ttyACM3", None, Some("AA11"))];
    let r = build_serialport_builder(&device(None, Some("AA11")), Ok(ports.clone()), USB_DEFAULT_BAUD_RATE, MatchStrategy::SerialNumber);
    assert_eq!(r, Ok(config("/dev/ttyACM3", USB_DEFAULT_BAUD_RATE)));
    let r = build_serialport_builder(&device(None, None), Ok(ports), USB_DEFAULT_BAUD_RATE, MatchStrategy::SerialNumber);
    assert_eq!(r, Err(DeviceError::Resolution(ResolveError::MetadataMissing)));
    let r = build_serialport_builder(&device(None, Some("AA11")), Ok(Vec::new()), USB_DEFAULT_BAUD_RATE, MatchStrategy::SerialNumber);
    assert_eq!(r, Err(DeviceError::Resolution(ResolveError::NoPorts)));
}
