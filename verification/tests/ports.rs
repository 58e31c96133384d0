use fan_modbus::fan_defaults::{
    DataBits, Parity, StopBits, BAUD_RATE, DATA_BITS, FAN_ADDRESS, PARITY, PORT_NAME, STOP_BITS,
    TIMEOUT_SECONDS,
};
use fan_modbus::ports::{
    is_usb_serial_adapter, SerialPortInfo, SerialPortType, UsbPortInfo, ADAPTER_PRODUCT_ID,
    ADAPTER_PRODUCT_NAME, ADAPTER_VENDOR_ID,
};

fn adapter() -> SerialPortInfo {
    SerialPortInfo {
        port_name: "/dev/cu.usbserial-2150".to_string(),
        port_type: SerialPortType::UsbPort(UsbPortInfo {
            vid: 6790,
            pid: 29987,
            serial_number: None,
            manufacturer: None,
            product: Some("USB Serial".to_string()),
        }),
    }
}

fn usb_of(port: SerialPortInfo) -> UsbPortInfo {
    match port.port_type {
        SerialPortType::UsbPort(usb) => usb,
        other => panic!("not a USB port: {:?}", other),
    }
}

#[test]
fn line_defaults() {
    assert_eq!(PORT_NAME, "/dev/cu.usbserial-2150");
    assert_eq!(BAUD_RATE, 19_200);
    assert_eq!(FAN_ADDRESS, 0x02);
    assert_eq!(TIMEOUT_SECONDS, 1);
    assert_eq!(DATA_BITS, DataBits::Eight);
    assert_eq!(PARITY, Parity::Even);
    assert_eq!(STOP_BITS, StopBits::One);
}

#[test]
fn adapter_constants() {
    assert_eq!(ADAPTER_VENDOR_ID, 6790);
    assert_eq!(ADAPTER_PRODUCT_ID, 29987);
    assert_eq!(ADAPTER_PRODUCT_NAME, "USB Serial");
}

#[test]
fn the_adapter_is_recognised() {
    assert!(is_usb_serial_adapter(&adapter()));
}

#[test]
fn another_port_name_is_not_the_adapter() {
    let port = SerialPortInfo { port_name: "/dev/ttyUSB0".to_string(), ..adapter() };
    assert!(!is_usb_serial_adapter(&port));
    let empty = SerialPortInfo { port_name: String::new(), ..adapter() };
    assert!(!is_usb_serial_adapter(&empty));
}

#[test]
fn another_vendor_or_product_is_not_the_adapter() {
    let mut port = adapter();
    port.port_type = SerialPortType::UsbPort(UsbPortInfo { vid: 6791, ..usb_of(adapter()) });
    assert!(!is_usb_serial_adapter(&port));
    port.port_type = SerialPortType::UsbPort(UsbPortInfo { pid: 29988, ..usb_of(adapter()) });
    assert!(!is_usb_serial_adapter(&port));
}

#[test]
fn a_serial_number_or_manufacturer_is_not_the_adapter() {
    let mut port = adapter();
    port.port_type = SerialPortType::UsbPort(UsbPortInfo {
        serial_number: Some("0001".to_string()),
        ..usb_of(adapter())
    });
    assert!(!is_usb_serial_adapter(&port));
    port.port_type = SerialPortType::UsbPort(UsbPortInfo {
        manufacturer: Some("QinHeng".to_string()),
        ..usb_of(adapter())
    });
    assert!(!is_usb_serial_adapter(&port));
}

#[test]
fn another_product_name_is_not_the_adapter() {
    let mut port = adapter();
    port.port_type = SerialPortType::UsbPort(UsbPortInfo {
        product: Some("USB Serial ".to_string()),
        ..usb_of(adapter())
    });
    assert!(!is_usb_serial_adapter(&port));
    port.port_type =
        SerialPortType::UsbPort(UsbPortInfo { product: None, ..usb_of(adapter()) });
    assert!(!is_usb_serial_adapter(&port));
}

#[test]
fn a_port_that_is_not_usb_is_not_the_adapter() {
    for port_type in
        [SerialPortType::PciPort, SerialPortType::BluetoothPort, SerialPortType::Unknown]
    {
        let port = SerialPortInfo { port_name: PORT_NAME.to_string(), port_type };
        assert!(!is_usb_serial_adapter(&port));
    }
}
