use aegis::interception::power_monitor::{authorized_attr_path, read_port_power};
use aegis::interception::udev_monitor::{
    is_root_hub_entry, parse_usb_device, read_decimal_attr, read_hex_attr, read_string_attr,
    SysfsDeviceAttrs,
};
use aegis::interception::write_blocker::{device_name_from_path, ro_flag_path, ro_flag_set};

#[test]
fn test_device_name_extraction() {
    assert_eq!(device_name_from_path("/dev/sdb"), Some("sdb"));
    assert_eq!(device_name_from_path("/dev/sdc1"), Some("sdc1"));
    assert_eq!(device_name_from_path("sdb"), None);
}

#[test]
fn device_name_edge_cases() {
    assert_eq!(device_name_from_path("/dev/"), Some(""));
    assert_eq!(device_name_from_path("/dev"), None);
    assert_eq!(device_name_from_path("/sys/sdb"), None);
}

#[test]
fn ro_flag_file() {
    assert_eq!(ro_flag_path("sdb"), "/sys/block/sdb/ro");
    assert!(ro_flag_set("1\n"));
    assert!(!ro_flag_set("0\n"));
    assert!(!ro_flag_set("11"));
    assert!(ro_flag_set("  1  "));
}

#[test]
fn port_power_from_attributes() {
    let s = read_port_power("/sys/bus/usb/devices/1-2", Some("auto\n"), Some("2000\n"));
    assert_eq!(s.port_path, "/sys/bus/usb/devices/1-2");
    assert_eq!(s.level, "auto");
    assert!(s.powered);
    assert!(s.autosuspend);

    let s = read_port_power("/x", Some("suspend\n"), Some("-1\n"));
    assert!(!s.powered);
    assert!(!s.autosuspend);

    let s = read_port_power("/x", None, None);
    assert_eq!(s.level, "unknown");
    assert!(s.powered);
    assert!(!s.autosuspend);

    // `str::parse::<i32>` accepts "-0" and "+5", and rejects overflow.
    assert!(read_port_power("/x", None, Some("-0")).autosuspend);
    assert!(read_port_power("/x", None, Some("+5")).autosuspend);
    assert!(!read_port_power("/x", None, Some("2147483648")).autosuspend);
    assert!(read_port_power("/x", None, Some("2147483647")).autosuspend);
    assert!(!read_port_power("/x", None, Some("-+0")).autosuspend);
    assert!(!read_port_power("/x", None, Some("abc")).autosuspend);
    assert_eq!(authorized_attr_path("/sys/bus/usb/devices/1-2"), "/sys/bus/usb/devices/1-2/authorized");
}

#[test]
fn sysfs_attribute_parsing() {
    assert_eq!(read_hex_attr("0781\n"), Some(0x0781));
    assert_eq!(read_hex_attr("abCD"), Some(0xABCD));
    assert_eq!(read_hex_attr("10000"), None);
    assert_eq!(read_hex_attr(""), None);
    assert_eq!(read_decimal_attr(" 12 \n"), Some(12));
    assert_eq!(read_decimal_attr("4294967296"), None);
    assert_eq!(read_string_attr("  SanDisk \n"), Some("SanDisk".to_string()));
    assert_eq!(read_string_attr(" \n"), None);
}

fn attrs() -> SysfsDeviceAttrs {
    SysfsDeviceAttrs {
        name: Some("1-2".to_string()),
        path: "/sys/bus/usb/devices/1-2".to_string(),
        has_id_vendor: true,
        has_id_product: true,
        id_vendor: Some("0781\n".to_string()),
        id_product: Some("5583\n".to_string()),
        removable: Some("removable\n".to_string()),
        busnum: Some("1\n".to_string()),
        devnum: Some("259\n".to_string()),
        serial: Some("SN123\n".to_string()),
        manufacturer: Some("SanDisk\n".to_string()),
        product: None,
        version: Some(" 2.00\n".to_string()),
        device_class: Some("00\n".to_string()),
        device_subclass: None,
        interface_classes: vec![Some("08\n".to_string()), Some("03\n".to_string())],
        block_device_name: Some("sdb".to_string()),
    }
}

#[test]
fn usb_device_from_sysfs() {
    let d = parse_usb_device(&attrs()).expect("tracked device");
    assert_eq!(d.vendor_id, 0x0781);
    assert_eq!(d.product_id, 0x5583);
    assert_eq!(d.port_path, "1-2");
    assert_eq!(d.bus_number, 1);
    assert_eq!(d.device_number, 3); // 259 cut to 8 bits
    assert_eq!(d.serial_number.as_deref(), Some("SN123"));
    assert_eq!(d.product_name, None);
    assert_eq!(d.revision.as_deref(), Some("2.00"));
    assert!(d.has_hid_interface);
    assert_eq!(d.block_device.as_deref(), Some("/dev/sdb"));
}

#[test]
fn untracked_sysfs_entries() {
    let mut a = attrs();
    a.removable = Some("fixed\n".to_string());
    assert!(parse_usb_device(&a).is_none());

    let mut a = attrs();
    a.id_vendor = Some("0000".to_string());
    a.id_product = None;
    assert!(parse_usb_device(&a).is_none());

    let mut a = attrs();
    a.has_id_product = false;
    assert!(parse_usb_device(&a).is_none());

    assert!(is_root_hub_entry("usb1"));
    assert!(!is_root_hub_entry("1-2"));
    assert!(!is_root_hub_entry("us"));
}
