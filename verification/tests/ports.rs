use framed_serial::util::{detect_usb_port, SerialPortInfo, SerialPortType, UsbPortInfo};

fn usb(name: &str, vid: u16, pid: u16, interface: Option<u8>) -> SerialPortInfo {
    SerialPortInfo {
        port_name: name.to_string(),
        port_type: SerialPortType::UsbPort(UsbPortInfo { vid, pid, interface }),
    }
}

fn other(name: &str, port_type: SerialPortType) -> SerialPortInfo {
    SerialPortInfo { port_name: name.to_string(), port_type }
}

#[test]
fn finds_the_matching_usb_port() {
    let ports = vec![
        other("/dev/ttyS0", SerialPortType::Unknown),
        usb("/dev/ttyACM0", 0x1d50, 0x606f, Some(0)),
        usb("/dev/ttyACM1", 0x1d50, 0x606f, Some(2)),
    ];
    assert_eq!(detect_usb_port(0x1d50, 0x606f, Some(2), &ports), Some("/dev/ttyACM1".to_string()));
    assert_eq!(detect_usb_port(0x1d50, 0x606f, Some(0), &ports), Some("/dev/ttyACM0".to_string()));
}

#[test]
fn first_match_wins() {
    let ports = vec![usb("a", 1, 2, None), usb("b", 1, 2, None)];
    assert_eq!(detect_usb_port(1, 2, None, &ports), Some("a".to_string()));
}

#[test]
fn interface_must_match_too() {
    let ports = vec![usb("a", 1, 2, Some(1))];
    assert_eq!(detect_usb_port(1, 2, None, &ports), None);
    assert_eq!(detect_usb_port(1, 2, Some(0), &ports), None);
    assert_eq!(detect_usb_port(1, 3, Some(1), &ports), None);
    assert_eq!(detect_usb_port(2, 2, Some(1), &ports), None);
}

#[test]
fn non_usb_ports_never_match() {
    let ports = vec![
        other("pci", SerialPortType::PciPort),
        other("bt", SerialPortType::BluetoothPort),
        other("unknown", SerialPortType::Unknown),
    ];
    assert_eq!(detect_usb_port(0, 0, None, &ports), None);
    assert_eq!(detect_usb_port(0, 0, None, &Vec::new()), None);
}
