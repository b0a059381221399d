use sysprobe::types::CoreError;
use sysprobe::utils::displays::{Dimensions, Display, DisplaysInfo, MonitorRecord, Position};
use sysprobe::utils::usb::{speed_label, Speed, USBDevice, USBInfo, USBInterface};

fn usb_device(index: usize, product: &str) -> USBDevice {
    USBDevice {
        index,
        bus_number: 1,
        device_address: 4,
        vendor_id: 0x046d,
        product_id: 0xc52b,
        device_version: 0x1211,
        class: 0,
        subclass: 0,
        protocol: 0,
        speed: Some(Speed::Full),
        manufacturer_string: Some("Logitech".to_string()),
        product_string: Some(product.to_string()),
        serial_number: None,
        interfaces: vec![USBInterface {
            interface_number: 0,
            class: 3,
            subclass: 1,
            protocol: 1,
            interface_string: None,
        }],
    }
}

#[test]
fn usb_devices_are_numbered_by_position() {
    let info =
        USBInfo::get(Ok(vec![usb_device(7, "Receiver"), usb_device(7, "Keyboard")])).unwrap();
    assert_eq!(info.total_devices, 2);
    assert_eq!(info.devices[0], usb_device(0, "Receiver"));
    assert_eq!(info.devices[1], usb_device(1, "Keyboard"));
}

#[test]
fn no_usb_device_is_an_empty_answer() {
    let info = USBInfo::get(Ok(Vec::new())).unwrap();
    assert_eq!(info.total_devices, 0);
    assert!(info.devices.is_empty());
}

#[test]
fn usb_listing_failure_becomes_a_usb_error() {
    let err = USBInfo::get(Err("permission denied".to_string())).unwrap_err();
    assert_eq!(err, CoreError::USBInfoError("permission denied".to_string()));
    assert_eq!(err.report().0, "uSBInfoError");
    assert_eq!(
        err.to_string(),
        "An error occurred while retrieving USB information: permission denied"
    );
}

#[test]
fn usb_speed_labels() {
    assert_eq!(Speed::Low.to_string(), "Low speed (1.5 Mbit)");
    assert_eq!(Speed::Full.to_string(), "Full speed (12 Mbit)");
    assert_eq!(Speed::High.to_string(), "High speed (480 Mbit)");
    assert_eq!(Speed::Super.to_string(), "Super speed (5,000 Mbit)");
    assert_eq!(Speed::SuperPlus.to_string(), "Super speed (10,000 Mbit)");
    assert_eq!(Speed::Other.to_string(), "Unknown");
    assert_eq!(speed_label(&Some(Speed::High)), Some("High speed (480 Mbit)".to_string()));
    assert_eq!(speed_label(&None), None);
}

fn monitor(name: Option<&str>) -> MonitorRecord {
    MonitorRecord {
        name: name.map(str::to_string),
        width: 2560,
        height: 1440,
        scale_factor_bits: 1.25f64.to_bits(),
        x: -2560,
        y: 0,
        refresh_rate_millihertz: Some(143_999),
    }
}

#[test]
fn displays_are_built_from_monitors() {
    let info = DisplaysInfo::get(Ok(vec![monitor(Some("DP-1")), monitor(None)])).unwrap();
    assert_eq!(info.total_displays, 2);
    assert_eq!(
        info.displays[0],
        Display {
            name: "DP-1".to_string(),
            dimensions: Dimensions { width: 2560, height: 1440 },
            scale_factor_bits: 1.25f64.to_bits(),
            position: Position { x: -2560, y: 0 },
            refresh_rate: Some(143_999),
        }
    );
    assert_eq!(f64::from_bits(info.displays[0].scale_factor_bits), 1.25);
    assert_eq!(info.displays[1].name, "");
    assert_eq!(Display::from_monitor(&monitor(None)).name, "");
}

#[test]
fn no_display_is_an_empty_answer() {
    let info = DisplaysInfo::get(Ok(Vec::new())).unwrap();
    assert_eq!(info.total_displays, 0);
    assert!(info.displays.is_empty());
}

#[test]
fn windowing_failure_becomes_a_generic_error() {
    let err = DisplaysInfo::get(Err("no event loop".to_string())).unwrap_err();
    assert_eq!(err, CoreError::Error("no event loop".to_string()));
    assert_eq!(err.to_string(), "An error occurred: no event loop");
}

#[test]
fn dimension_and_position_labels() {
    assert_eq!(Dimensions { width: 1920, height: 1080 }.to_string(), "1920x1080");
    assert_eq!(Dimensions { width: 0, height: u32::MAX }.to_string(), "0x4294967295");
    assert_eq!(Position { x: 0, y: 0 }.to_string(), "(0, 0)");
    assert_eq!(Position { x: -1920, y: 1080 }.to_string(), "(-1920, 1080)");
    assert_eq!(
        Position { x: i32::MIN, y: i32::MAX }.to_string(),
        "(-2147483648, 2147483647)"
    );
}
