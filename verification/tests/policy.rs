use sha2::Digest;
use aegis::config::{GeofenceRule, RolePermissions};
use aegis::device::{PortLocation, UsbDevice};
use aegis::policy::device_passport::{generate_passport, is_trusted};
use aegis::policy::geofence::GeofenceEngine;
use aegis::policy::rbac::RbacEngine;
use aegis::table::NamedTable;

fn test_roles() -> NamedTable<RolePermissions> {
    let mut roles = NamedTable::new();
    roles.insert(
        "admin".to_string(),
        RolePermissions {
            can_authorize: true,
            can_block: true,
            can_view_logs: true,
            can_configure: true,
            can_eject: true,
        },
    );
    roles.insert(
        "user".to_string(),
        RolePermissions {
            can_authorize: false,
            can_block: false,
            can_view_logs: true,
            can_configure: false,
            can_eject: true,
        },
    );
    roles.insert(
        "kiosk".to_string(),
        RolePermissions {
            can_authorize: false,
            can_block: false,
            can_view_logs: false,
            can_configure: false,
            can_eject: false,
        },
    );
    roles
}

#[test]
fn test_admin_full_access() {
    let engine = RbacEngine::new(test_roles());
    assert!(engine.check_permission("admin", "authorize"));
    assert!(engine.check_permission("admin", "block"));
    assert!(engine.check_permission("admin", "configure"));
    assert!(engine.check_permission("admin", "view_logs"));
    assert!(engine.check_permission("admin", "eject"));
}

#[test]
fn test_user_limited_access() {
    let engine = RbacEngine::new(test_roles());
    assert!(!engine.check_permission("user", "authorize"));
    assert!(!engine.check_permission("user", "block"));
    assert!(!engine.check_permission("user", "configure"));
    assert!(engine.check_permission("user", "view_logs"));
    assert!(engine.check_permission("user", "eject"));
}

#[test]
fn test_kiosk_no_access() {
    let engine = RbacEngine::new(test_roles());
    assert!(!engine.check_permission("kiosk", "authorize"));
    assert!(!engine.check_permission("kiosk", "eject"));
    assert!(!engine.check_permission("kiosk", "view_logs"));
}

#[test]
fn test_unknown_role_denied() {
    let engine = RbacEngine::new(test_roles());
    assert!(!engine.check_permission("hacker", "authorize"));
}

#[test]
fn unknown_action_denied_even_for_admin() {
    let engine = RbacEngine::new(test_roles());
    assert!(!engine.check_permission("admin", "format_disk"));
    assert!(!engine.check_permission("admin", ""));
}

#[test]
fn roles_listed_in_insertion_order() {
    let engine = RbacEngine::new(test_roles());
    assert_eq!(engine.list_roles(), vec!["admin", "user", "kiosk"]);
    let user = engine.get_role_permissions("user").unwrap();
    assert!(user.can_eject && !user.can_authorize);
    assert!(engine.get_role_permissions("root").is_none());
}

#[test]
fn test_port_classification() {
    assert_eq!(GeofenceEngine::classify_port("1-2"), PortLocation::RearIO);
    assert_eq!(GeofenceEngine::classify_port("1-3"), PortLocation::RearIO);
    assert_eq!(GeofenceEngine::classify_port("1-6"), PortLocation::FrontPanel);
    assert_eq!(GeofenceEngine::classify_port("1-2.3"), PortLocation::Hub);
    assert_eq!(GeofenceEngine::classify_port(""), PortLocation::Unknown);
}

#[test]
fn port_classification_edge_cases() {
    // Port numbers follow `str::parse::<u32>`: a leading '+' is accepted.
    assert_eq!(GeofenceEngine::classify_port("1-+4"), PortLocation::RearIO);
    assert_eq!(GeofenceEngine::classify_port("1-0"), PortLocation::RearIO);
    assert_eq!(GeofenceEngine::classify_port("2-5"), PortLocation::FrontPanel);
    assert_eq!(GeofenceEngine::classify_port("1-4294967295"), PortLocation::FrontPanel);
    assert_eq!(GeofenceEngine::classify_port("1-4294967296"), PortLocation::Unknown);
    assert_eq!(GeofenceEngine::classify_port("1-x"), PortLocation::Unknown);
    assert_eq!(GeofenceEngine::classify_port("1-"), PortLocation::Unknown);
    assert_eq!(GeofenceEngine::classify_port("1-2-3"), PortLocation::Unknown);
    assert_eq!(GeofenceEngine::classify_port("usb1"), PortLocation::Unknown);
    assert_eq!(GeofenceEngine::classify_port("-3"), PortLocation::RearIO);
    // Buses above 2 hold no rear ports.
    assert_eq!(GeofenceEngine::classify_port("3-1"), PortLocation::FrontPanel);
    assert_eq!(GeofenceEngine::classify_port("12-2"), PortLocation::FrontPanel);
    assert_eq!(GeofenceEngine::classify_port("2-4"), PortLocation::RearIO);
    assert_eq!(GeofenceEngine::classify_port("x-1"), PortLocation::RearIO);
    assert_eq!(GeofenceEngine::classify_port("3-x"), PortLocation::Unknown);
}

#[test]
fn test_block_front_panel() {
    let mut rules = NamedTable::new();
    rules.insert(
        "front".to_string(),
        GeofenceRule { location: PortLocation::FrontPanel, allowed: false, allowed_classes: None },
    );

    let engine = GeofenceEngine::new(rules);
    let device = UsbDevice::new(0x0781, 0x5583, "1-6".into(), 1, 6, "/sys/test".into());

    let result = engine.check_device(&device);
    assert!(!result.allowed);
    assert_eq!(result.location, PortLocation::FrontPanel);
    assert_eq!(result.reason, "Port 1-6 (FrontPanel) is blocked by geo-fence policy");
}

#[test]
fn test_allow_rear_io() {
    let mut rules = NamedTable::new();
    rules.insert(
        "rear".to_string(),
        GeofenceRule { location: PortLocation::RearIO, allowed: true, allowed_classes: None },
    );

    let engine = GeofenceEngine::new(rules);
    let device = UsbDevice::new(0x0781, 0x5583, "1-2".into(), 1, 2, "/sys/test".into());

    let result = engine.check_device(&device);
    assert!(result.allowed);
    assert_eq!(result.reason, "Permitted by geo-fence policy");
}

#[test]
fn geofence_class_restriction_and_default_allow() {
    let mut rules = NamedTable::new();
    rules.insert(
        "hub".to_string(),
        GeofenceRule {
            location: PortLocation::Hub,
            allowed: true,
            allowed_classes: Some(vec![0x03]),
        },
    );
    let engine = GeofenceEngine::new(rules);

    let mut storage = UsbDevice::new(0x0781, 0x5583, "1-2.1".into(), 1, 7, "/sys/test".into());
    storage.device_class = 0x08;
    let result = engine.check_device(&storage);
    assert!(!result.allowed);
    assert_eq!(result.location, PortLocation::Hub);
    assert_eq!(result.reason, "Device class 0x08 not permitted on Hub ports");

    let mut keyboard = UsbDevice::new(0x046D, 0xC534, "1-2.2".into(), 1, 8, "/sys/test".into());
    keyboard.device_class = 0x03;
    assert!(engine.check_device(&keyboard).allowed);

    let rear = UsbDevice::new(0x0781, 0x5583, "1-1".into(), 1, 2, "/sys/test".into());
    let result = engine.check_device(&rear);
    assert!(result.allowed);
    assert_eq!(result.location, PortLocation::RearIO);
    assert_eq!(
        result.reason,
        "No geo-fence rule for this port location — default allow"
    );
}

#[test]
fn geofence_first_rule_for_a_location_decides() {
    let mut rules = NamedTable::new();
    rules.insert(
        "front_block".to_string(),
        GeofenceRule { location: PortLocation::FrontPanel, allowed: false, allowed_classes: None },
    );
    rules.insert(
        "front_allow".to_string(),
        GeofenceRule { location: PortLocation::FrontPanel, allowed: true, allowed_classes: None },
    );
    let engine = GeofenceEngine::new(rules);
    let device = UsbDevice::new(1, 2, "3-9".into(), 3, 9, "/sys/test".into());
    assert!(!engine.check_device(&device).allowed);
}

#[test]
fn test_passport_deterministic() {
    let mut dev = UsbDevice::new(0x0781, 0x5583, "1-2".into(), 1, 3, "/sys/test".into());
    dev.serial_number = Some("SN123456".into());
    dev.revision = Some("2.00".into());

    let hash1 = generate_passport(&dev);
    let hash2 = generate_passport(&dev);
    assert_eq!(hash1, hash2);
    assert_eq!(hash1.len(), 64);
}

#[test]
fn test_passport_unique_per_device() {
    let mut dev1 = UsbDevice::new(0x0781, 0x5583, "1-2".into(), 1, 3, "/sys/test".into());
    dev1.serial_number = Some("AAA".into());

    let mut dev2 = UsbDevice::new(0x0781, 0x5583, "1-2".into(), 1, 3, "/sys/test".into());
    dev2.serial_number = Some("BBB".into());

    assert_ne!(generate_passport(&dev1), generate_passport(&dev2));
}

#[test]
fn passport_is_sha256_of_identifiers() {
    // SHA-256 of 81 07 83 55, then FE for each missing identifier.
    let mut dev = UsbDevice::new(0x0781, 0x5583, "1-2".into(), 1, 3, "/sys/test".into());
    let expected = hex::encode(sha2::Sha256::digest([0x81u8, 0x07, 0x83, 0x55, 0xfe, 0xfe]));
    assert_eq!(generate_passport(&dev), expected);
    // Present identifiers are their UTF-8 bytes ended by FF.
    dev.serial_number = Some("SN1".into());
    dev.revision = Some("é".into());
    let mut pre = vec![0x81u8, 0x07, 0x83, 0x55];
    pre.extend_from_slice(b"SN1\xff");
    pre.extend_from_slice("é".as_bytes());
    pre.push(0xff);
    assert_eq!(generate_passport(&dev), hex::encode(sha2::Sha256::digest(&pre)));
    assert!(generate_passport(&dev).chars().all(|c| c.is_ascii_hexdigit() && !c.is_ascii_uppercase()));
}

#[test]
fn passport_fields_do_not_run_together() {
    let mut a = UsbDevice::new(0x0781, 0x5583, "1-2".into(), 1, 3, "/sys/test".into());
    let mut b = UsbDevice::new(0x0781, 0x5583, "1-2".into(), 1, 3, "/sys/test".into());
    a.serial_number = Some("AB".into());
    a.revision = Some("C".into());
    b.serial_number = Some("A".into());
    b.revision = Some("BC".into());
    assert_ne!(generate_passport(&a), generate_passport(&b));
    // A missing serial differs from any serial text.
    a.serial_number = None;
    b.serial_number = Some("NO_SERIAL".into());
    a.revision = None;
    b.revision = None;
    assert_ne!(generate_passport(&a), generate_passport(&b));
    // Same identifiers, different port and session: same passport.
    let mut c = UsbDevice::new(0x0781, 0x5583, "2-4".into(), 2, 7, "/sys/other".into());
    c.serial_number = None;
    assert_eq!(generate_passport(&a), generate_passport(&c));
}

#[test]
fn test_trusted_check() {
    let trusted = vec!["abc123".to_string(), "def456".to_string()];
    assert!(is_trusted("abc123", &trusted));
    assert!(!is_trusted("xyz789", &trusted));
}

#[test]
fn trusted_check_empty_list() {
    assert!(!is_trusted("abc123", &[]));
    assert!(!is_trusted("", &["abc".to_string()]));
}
