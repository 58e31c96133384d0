//! Recognising the serial adapter of the fan among the ports of the machine.

use vstd::prelude::*;
use vstd::string::StringExecFns;
use crate::fan_defaults::PORT_NAME;

verus! {

/// USB vendor id of the adapter.
pub const ADAPTER_VENDOR_ID: u16 = 6790;

/// USB product id of the adapter.
pub const ADAPTER_PRODUCT_ID: u16 = 29987;

/// USB product name of the adapter.
pub const ADAPTER_PRODUCT_NAME: &'static str = "USB Serial";

/// What a USB device says of itself.
#[derive(Debug)]
pub struct UsbPortInfo {
    /// Vendor ID
    pub vid: u16,
    /// Product ID
    pub pid: u16,
    /// Serial number (arbitrary string)
    pub serial_number: Option<String>,
    /// Manufacturer (arbitrary string)
    pub manufacturer: Option<String>,
    /// Product name (arbitrary string)
    pub product: Option<String>,
}

/// How a serial port is attached to the machine.
#[derive(Debug)]
pub enum SerialPortType {
    /// The serial port is connected via USB
    UsbPort(UsbPortInfo),
    /// The serial port is connected via PCI (permanent port)
    PciPort,
    /// The serial port is connected via Bluetooth
    BluetoothPort,
    /// It can't be determined how the serial port is connected
    Unknown,
}

/// A serial port of the machine.
#[derive(Debug)]
pub struct SerialPortInfo {
    /// The short name of the serial port
    pub port_name: String,
    /// The hardware device type that exposes this port
    pub port_type: SerialPortType,
}

/// Whether a port is the one adapter that is supported: a USB device with
/// the adapter's vendor and product id, the product name
/// [`ADAPTER_PRODUCT_NAME`], no serial number and no manufacturer, under the
/// name [`PORT_NAME`].
pub open spec fn spec_is_usb_serial_adapter(port: SerialPortInfo) -> bool {
    &&& port.port_name@ == PORT_NAME@
    &&& port.port_type matches SerialPortType::UsbPort(usb)
    &&& usb.vid == ADAPTER_VENDOR_ID
    &&& usb.pid == ADAPTER_PRODUCT_ID
    &&& usb.serial_number is None
    &&& usb.manufacturer is None
    &&& usb.product matches Some(product_name)
    &&& product_name@ == ADAPTER_PRODUCT_NAME@
}

/// Whether a port is the one adapter that is supported.
pub fn is_usb_serial_adapter(port: &SerialPortInfo) -> (is_adapter: bool)
    ensures
        is_adapter == spec_is_usb_serial_adapter(*port),
{
    match &port.port_type {
        SerialPortType::UsbPort(usb) => {
            if usb.vid != ADAPTER_VENDOR_ID || usb.pid != ADAPTER_PRODUCT_ID {
                return false;
            }
            if usb.serial_number.is_some() || usb.manufacturer.is_some() {
                return false;
            }
            match &usb.product {
                Some(product_name) => {
                    *product_name == String::from_str(ADAPTER_PRODUCT_NAME) && port.port_name
                        == String::from_str(PORT_NAME)
                },
                None => false,
            }
        },
        _ => false,
    }
}

} // verus!
