//! Selecting a USB serial port by its vendor id, product id and interface.
//!
//! The list of ports comes from the operating system; it is handed in here
//! as plain values.

use vstd::prelude::*;

verus! {

/// The identity of a USB serial device.
#[derive(Clone, Copy, Debug, PartialEq, Eq)]
pub struct UsbPortInfo {
    /// Vendor id
    pub vid: u16,
    /// Product id
    pub pid: u16,
    /// Interface number, on composite devices that report one
    pub interface: Option<u8>,
}

/// The kind of a serial port.
#[derive(Clone, Copy, Debug, PartialEq, Eq)]
pub enum SerialPortType {
    /// A USB device, with its identity
    UsbPort(UsbPortInfo),
    /// A PCI device
    PciPort,
    /// A Bluetooth device
    BluetoothPort,
    /// Anything else
    Unknown,
}

/// A serial port known to the operating system.
#[derive(Clone, Debug)]
pub struct SerialPortInfo {
    /// The name to open the port by
    pub port_name: String,
    /// What kind of port it is
    pub port_type: SerialPortType,
}

/// The port is the USB device with this vendor id, product id and interface.
pub open spec fn is_usb_match(port: SerialPortInfo, vid: u16, pid: u16, interface: Option<u8>) -> bool {
    match port.port_type {
        SerialPortType::UsbPort(info) => info.vid == vid && info.pid == pid && info.interface
            == interface,
        _ => false,
    }
}

/// `k` is the first port of the list that matches.
pub open spec fn is_first_usb_match(
    ports: Seq<SerialPortInfo>,
    vid: u16,
    pid: u16,
    interface: Option<u8>,
    k: int,
) -> bool {
    &&& 0 <= k < ports.len()
    &&& is_usb_match(ports[k], vid, pid, interface)
    &&& forall|j: int| 0 <= j < k ==> !is_usb_match(#[trigger] ports[j], vid, pid, interface)
}

/// Finds the first USB port with the given vendor id, product id and
/// interface, and returns its name; `None` when no port matches.
pub fn detect_usb_port(vid: u16, pid: u16, interface: Option<u8>, ports: &Vec<SerialPortInfo>) -> (name: Option<String>)
    ensures
        match name {
            Some(n) => exists|k: int|
                is_first_usb_match(ports@, vid, pid, interface, k) && n@ == (
                #[trigger] ports@[k]).port_name@,
            None => forall|k: int|
                0 <= k < ports@.len() ==> !is_usb_match(#[trigger] ports@[k], vid, pid, interface),
        },
{
    let len = ports.len();
    let mut i: usize = 0;
    while i < len
        invariant
            len == ports@.len(),
            i <= len,
            forall|j: int| 0 <= j < i ==> !is_usb_match(#[trigger] ports@[j], vid, pid, interface),
        decreases len - i,
    {
        let port = &ports[i];
        match &port.port_type {
            SerialPortType::UsbPort(info) => {
                if vid == info.vid && pid == info.pid && info.interface == interface {
                    let found = port.port_name.clone();
                    assert(is_first_usb_match(ports@, vid, pid, interface, i as int));
                    return Some(found);
                }
            },
            _ => {},
        }
        i = i + 1;
    }
    None
}

/// A port matches exactly when it is a USB port whose vendor id, product
/// id and reported interface all equal the requested ones; a port that
/// reports no interface matches only a request for no interface.
pub proof fn law_usb_match_is_exact(port: SerialPortInfo, vid: u16, pid: u16, interface: Option<u8>)
    ensures
        is_usb_match(port, vid, pid, interface) <==> port.port_type == SerialPortType::UsbPort(
            (UsbPortInfo { vid, pid, interface }),
        ),
{
}

/// The port [`detect_usb_port`] returns is the earliest in the list that is
/// the requested USB device, identity and interface alike.
pub proof fn law_detected_port_is_first_exact(
    ports: Seq<SerialPortInfo>,
    vid: u16,
    pid: u16,
    interface: Option<u8>,
    k: int,
)
    requires
        is_first_usb_match(ports, vid, pid, interface, k),
    ensures
        ports[k].port_type == SerialPortType::UsbPort((UsbPortInfo { vid, pid, interface })),
        forall|j: int|
            0 <= j < k ==> (#[trigger] ports[j]).port_type != SerialPortType::UsbPort(
                (UsbPortInfo { vid, pid, interface }),
            ),
{
    assert forall|j: int| 0 <= j < k implies (#[trigger] ports[j]).port_type
        != SerialPortType::UsbPort((UsbPortInfo { vid, pid, interface })) by {
        assert(!is_usb_match(ports[j], vid, pid, interface));
    }
}

} // verus!
