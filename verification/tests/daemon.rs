use hmac::Mac;
use aegis::config::AegisConfig;
use aegis::device::{DeviceStatus, UsbDevice};
use aegis::handler::{
    apply_config, audit_log_response, config_response, handle_command, AuditData, PortAction,
    Step,
};
use aegis::ipc::{DaemonCommand, DaemonResponse, IpcMessage};
use aegis::logging::{page_range, AuditEntry, AuditLogger};
use aegis::monitor::{Admission, DeviceMonitor};
use aegis::policy::geofence::GeofenceEngine;
use aegis::state::AppState;

fn device(port: &str) -> UsbDevice {
    let mut d = UsbDevice::new(0x0781, 0x5583, port.to_string(), 1, 3, format!("/sys/{port}"));
    d.serial_number = Some("SN1".to_string());
    d
}

#[test]
fn default_config_values() {
    let c = AegisConfig::default();
    assert_eq!(c.daemon.socket_path, "/tmp/aegis.sock");
    assert_eq!(c.daemon.max_clients, 10);
    assert_eq!(f64::from_bits(c.analysis.entropy_threshold_bits), 7.5);
    assert_eq!(c.policy.default_action, "quarantine");
    assert_eq!(c.policy.roles.len(), 3);
    assert!(c.policy.roles.get("admin").unwrap().can_configure);
    assert!(!c.policy.roles.get("kiosk").unwrap().can_eject);
    assert_eq!(c.policy.geofence_rules.len(), 2);
    assert_eq!(c.logging.hmac_key, "change-me-in-production");
}

#[test]
fn vid_pid_and_labels() {
    let d = UsbDevice::new(0x0781, 0x5583, "1-2".into(), 1, 3, "/sys/test".into());
    assert_eq!(d.vid_pid_string(), "0781:5583");
    let d = UsbDevice::new(0x00ab, 0xF00D, "1-2".into(), 1, 3, "/sys/test".into());
    assert_eq!(d.vid_pid_string(), "00ab:f00d");
    assert_eq!(d.status, DeviceStatus::Pending);
    assert_eq!(d.first_seen, d.last_updated);
    assert_ne!(d.session_id, 0);
    assert_eq!(DeviceStatus::Authorized.label(), "✅ Authorized");
    assert_eq!(DeviceStatus::Ejected.label(), "⏏️ Ejected");
}

#[test]
fn ipc_message_ids() {
    let m = IpcMessage::new(DaemonCommand::Ping);
    assert_ne!(m.id, 0);
    assert_eq!((m.id >> 76) & 0xf, 4);
    let r = IpcMessage::with_id(42, DaemonResponse::ShuttingDown);
    assert_eq!(r.id, 42);
}

#[test]
fn audit_chain_write_and_verify() {
    let mut logger = AuditLogger::new("/tmp/audit.jsonl".to_string(), "test-secret-key", None);
    let mut written = Vec::new();
    for (cat, act, sev, msg) in [
        ("device", "connected", 1u8, "USB device inserted"),
        ("analysis", "completed", 3, "Entropy scan passed"),
        ("policy", "authorized", 1, "Device approved by admin"),
    ] {
        let e = logger.prepare_entry(cat, act, sev, msg, "{}");
        logger.commit(&e);
        written.push(e);
    }
    assert!(logger.verify_chain(&written));
    assert_eq!(written[0].seq, 0);
    assert_eq!(written[2].seq, 2);
    assert_eq!(written[0].hmac.len(), 64);
}

#[test]
fn audit_chain_tamper_detected() {
    let mut logger = AuditLogger::new("/tmp/audit.jsonl".to_string(), "secret", None);
    let a = logger.prepare_entry("device", "connected", 1, "Device A", "{}");
    logger.commit(&a);
    let b = logger.prepare_entry("device", "blocked", 5, "Device B blocked", "{}");
    logger.commit(&b);
    let mut entries = vec![a, b];
    assert!(logger.verify_chain(&entries));
    entries[0].message = "TAMPERED".to_string();
    assert!(!logger.verify_chain(&entries));

    // A deleted entry breaks the chain too.
    let mut logger = AuditLogger::new("/tmp/audit.jsonl".to_string(), "secret", None);
    let a = logger.prepare_entry("x", "y", 1, "first", "{}");
    logger.commit(&a);
    let b = logger.prepare_entry("x", "y", 1, "second", "{}");
    logger.commit(&b);
    assert!(!logger.verify_chain(&[copy(&b)]));
    // A log cut short is refused: the logger stands after `b`.
    assert!(!logger.verify_chain(&[copy(&a)]));
    assert!(!logger.verify_chain(&[]));
    assert!(logger.verify_chain(&[copy(&a), copy(&b)]));
    // Changing the severity or the identifier of an entry breaks the chain.
    let mut changed = vec![copy(&a), copy(&b)];
    changed[0].severity = 9;
    assert!(!logger.verify_chain(&changed));
    let mut changed = vec![copy(&a), copy(&b)];
    changed[1].id ^= 1;
    assert!(!logger.verify_chain(&changed));
    // Text cannot move between fields unnoticed.
    let mut changed = vec![copy(&a), copy(&b)];
    changed[0].category = "x|".to_string();
    changed[0].action = "".to_string();
    assert!(!logger.verify_chain(&changed));
}

fn copy(e: &AuditEntry) -> AuditEntry {
    AuditEntry {
        id: e.id,
        seq: e.seq,
        timestamp: e.timestamp,
        category: e.category.clone(),
        action: e.action.clone(),
        severity: e.severity,
        message: e.message.clone(),
        data: e.data.clone(),
        hmac: e.hmac.clone(),
    }
}

#[test]
fn audit_chain_known_hmac() {
    let logger = AuditLogger::new("/tmp/a".to_string(), "k", None);
    let e = logger.entry_at(7, 0, "c", "a", 2, "mé", "{}");
    let mut mac = hmac::Hmac::<sha2::Sha256>::new_from_slice(b"k").unwrap();
    mac.update(
        "genesis|0|1970-01-01T00:00:00+00:00|00000000-0000-0000-0000-000000000007|2|1:c|1:a|2:mé|2:{}"
            .as_bytes(),
    );
    assert_eq!(e.hmac, hex::encode(mac.finalize().into_bytes()));
    assert_eq!(e.id, 7);
    assert_eq!(e.severity, 2);
}

#[test]
fn audit_chain_resumes_after_last_entry() {
    let mut first = AuditLogger::new("/tmp/a".to_string(), "k", None);
    let a = first.prepare_entry("c", "a", 1, "m", "{}");
    first.commit(&a);
    let mut resumed = AuditLogger::new("/tmp/a".to_string(), "k", Some(&a));
    let b = resumed.prepare_entry("c", "b", 1, "n", "{}");
    resumed.commit(&b);
    assert_eq!(b.seq, 1);
    assert!(resumed.verify_chain(&[a, b]));
}

#[test]
fn audit_pages() {
    assert_eq!(page_range(3, 10, 0), (0, 3));
    assert_eq!(page_range(10, 3, 2), (2, 5));
    assert_eq!(page_range(10, 3, 9), (9, 10));
    assert_eq!(page_range(10, 3, 12), (10, 10));
    assert_eq!(page_range(10, usize::MAX, 1), (1, 10));
}

#[test]
fn handler_access_control() {
    let mut state = AppState::new(AegisConfig::default());
    let d = device("1-2");
    let id = d.session_id;
    state.add_device(d);

    // A non-root client has the "user" role, which may not authorize.
    match handle_command(&mut state, DaemonCommand::AuthorizeDevice { session_id: id, read_only: false }, 1000, 5, "1.0") {
        Step::Reply { response: DaemonResponse::Error { code, message }, port: None, audit: None } => {
            assert_eq!(code, 403);
            assert_eq!(message, "Role 'user' lacks permission for this command");
        }
        _ => panic!("expected a refusal"),
    }
    assert_eq!(state.get_device(id).unwrap().status, DeviceStatus::Pending);

    // Root may.
    match handle_command(&mut state, DaemonCommand::AuthorizeDevice { session_id: id, read_only: false }, 0, 5, "1.0") {
        Step::Reply {
            response: DaemonResponse::DeviceActionResult { session_id, new_status, message },
            port: Some(PortAction::Restore { sysfs_path }),
            audit: Some(a),
        } => {
            assert_eq!(session_id, id);
            assert_eq!(new_status, DeviceStatus::Authorized);
            assert_eq!(message, "Device authorized for mounting");
            assert_eq!(sysfs_path, "/sys/1-2");
            assert_eq!(a.category, "policy");
            assert_eq!(a.action, "device_authorized");
            assert_eq!(a.severity, 2);
            assert_eq!(a.message, format!("Device {} authorized", uuid::Uuid::from_u128(id)));
            assert!(matches!(a.data, AuditData::Session { session_id } if session_id == id));
        }
        _ => panic!("expected an authorization"),
    }
    assert_eq!(state.get_device(id).unwrap().status, DeviceStatus::Authorized);
}

#[test]
fn handler_device_commands() {
    let mut state = AppState::new(AegisConfig::default());
    let d = device("1-3");
    let id = d.session_id;
    state.add_device(d);

    match handle_command(&mut state, DaemonCommand::BlockDevice { session_id: id, reason: "bad".into() }, 0, 9, "1.0") {
        Step::Reply { response: DaemonResponse::DeviceActionResult { message, new_status, .. }, port: Some(PortAction::Kill { .. }), audit: Some(a) } => {
            assert_eq!(message, "Device blocked: bad");
            assert_eq!(new_status, DeviceStatus::Blocked);
            assert_eq!(a.message, "Administrator blocked device: bad");
            assert_eq!(a.severity, 8);
        }
        _ => panic!("expected a block"),
    }

    match handle_command(&mut state, DaemonCommand::RescanDevice { session_id: id }, 0, 77, "1.0") {
        Step::Reply { response: DaemonResponse::DeviceActionResult { new_status, message, .. }, .. } => {
            assert_eq!(new_status, DeviceStatus::Analyzing);
            assert_eq!(message, "Re-analysis started");
        }
        _ => panic!("expected a rescan"),
    }
    assert_eq!(state.get_device(id).unwrap().last_updated, 77);

    // "user" may eject.
    match handle_command(&mut state, DaemonCommand::EjectDevice { session_id: id }, 1000, 80, "1.0") {
        Step::Reply { response: DaemonResponse::DeviceActionResult { new_status, .. }, audit: Some(a), .. } => {
            assert_eq!(new_status, DeviceStatus::Ejected);
            assert_eq!(a.action, "device_ejected");
        }
        _ => panic!("expected an eject"),
    }
    assert!(state.get_device(id).is_none());

    match handle_command(&mut state, DaemonCommand::GetDevice { session_id: id }, 1000, 80, "1.0") {
        Step::Reply { response: DaemonResponse::Error { code, message }, .. } => {
            assert_eq!(code, 404);
            assert_eq!(message, format!("Device {} not found", uuid::Uuid::from_u128(id)));
        }
        _ => panic!("expected not found"),
    }
}

#[test]
fn handler_queries() {
    let mut state = AppState::new(AegisConfig::default());
    state.add_device(device("1-1"));
    state.add_device(device("1-4"));

    match handle_command(&mut state, DaemonCommand::ListDevices, 1000, 0, "1.0") {
        Step::Reply { response: DaemonResponse::DeviceList { devices }, .. } => assert_eq!(devices.len(), 2),
        _ => panic!("expected a list"),
    }
    match handle_command(&mut state, DaemonCommand::Ping, 1000, i64::MIN, "9.9") {
        Step::Reply { response: DaemonResponse::Pong { version, uptime_secs }, .. } => {
            assert_eq!(version, "9.9");
            assert_eq!(uptime_secs, 0);
        }
        _ => panic!("expected a pong"),
    }
    assert!(matches!(handle_command(&mut state, DaemonCommand::GetConfig, 1000, 0, "1"), Step::SendConfig));
    assert!(matches!(
        handle_command(&mut state, DaemonCommand::GetAuditLog { limit: 5, offset: 1 }, 1000, 0, "1"),
        Step::ReadAuditLog { limit: 5, offset: 1 }
    ));
    // Only "admin" may change the configuration or shut down.
    assert!(matches!(
        handle_command(&mut state, DaemonCommand::UpdateConfig { config_json: "{}".into() }, 1000, 0, "1"),
        Step::Reply { response: DaemonResponse::Error { code: 403, .. }, .. }
    ));
    assert!(matches!(
        handle_command(&mut state, DaemonCommand::UpdateConfig { config_json: "{}".into() }, 0, 0, "1"),
        Step::ApplyConfig { .. }
    ));
    assert!(matches!(
        handle_command(&mut state, DaemonCommand::Shutdown, 0, 0, "1"),
        Step::Reply { response: DaemonResponse::ShuttingDown, .. }
    ));
}

#[test]
fn handler_follow_up_answers() {
    let mut state = AppState::new(AegisConfig::default());
    let (resp, audit) = apply_config(&mut state, Err("expected value".to_string()));
    assert!(matches!(resp, DaemonResponse::Error { code: 400, ref message } if message == "Invalid config JSON: expected value"));
    assert!(audit.is_none());
    let mut c = AegisConfig::default();
    c.daemon.max_clients = 3;
    let (resp, audit) = apply_config(&mut state, Ok(c));
    assert!(matches!(resp, DaemonResponse::Config { ref config_json } if config_json == "Configuration updated successfully"));
    assert_eq!(audit.unwrap().action, "config_updated");
    assert_eq!(state.config().daemon.max_clients, 3);

    assert!(matches!(config_response(Err("x".into())), DaemonResponse::Error { code: 500, .. }));
    assert!(matches!(
        audit_log_response(Ok((vec!["{}".to_string()], 4))),
        DaemonResponse::AuditLogEntries { total_count: 4, .. }
    ));
}

#[test]
fn monitor_admission_paths() {
    let config = AegisConfig::default();
    let mut state = AppState::new(AegisConfig::default());
    let mut monitor = DeviceMonitor::new();
    let geofence = GeofenceEngine::new(config.policy.geofence_rules);

    // Unknown device on an allowed port: pending, analysed.
    let d = device("1-2");
    let id = d.session_id;
    match monitor.on_device_added(&mut state, d, &vec![], &geofence) {
        Admission::Analyze { audit } => {
            assert_eq!(audit.action, "device_connected");
            assert!(matches!(audit.data, AuditData::SessionVidPid { ref vid_pid, .. } if vid_pid == "0781:5583"));
        }
        _ => panic!("expected analysis"),
    }
    assert_eq!(state.get_device(id).unwrap().status, DeviceStatus::Pending);

    // Same port again: ignored.
    assert!(matches!(monitor.on_device_added(&mut state, device("1-2"), &vec![], &geofence), Admission::AlreadyKnown));

    // Trusted passport: authorized.
    let t = device("1-3");
    let passport = aegis::policy::device_passport::generate_passport(&t);
    let tid = t.session_id;
    assert!(matches!(monitor.on_device_added(&mut state, t, &vec![passport], &geofence), Admission::Trusted { .. }));
    assert_eq!(state.get_device(tid).unwrap().status, DeviceStatus::Authorized);

    // Removal forgets the port.
    let audit = monitor.on_device_removed(&mut state, "/sys/1-2").unwrap();
    assert_eq!(audit.message, "USB device removed");
    assert!(state.get_device(id).is_none());
    assert!(monitor.on_device_removed(&mut state, "/sys/nowhere").is_none());
    assert!(matches!(monitor.on_device_added(&mut state, device("1-2"), &vec![], &geofence), Admission::Analyze { .. }));
}

#[test]
fn state_analysis_outcome() {
    let mut state = AppState::new(AegisConfig::default());
    let d = device("1-2");
    let id = d.session_id;
    state.add_device(d);
    assert!(state.apply_analysis(id, 35, vec![]));
    assert_eq!(state.get_device(id).unwrap().status, DeviceStatus::Quarantined);
    assert!(state.apply_analysis(id, 85, vec![]));
    assert_eq!(state.get_device(id).unwrap().status, DeviceStatus::Pending);
    assert_eq!(state.get_device(id).unwrap().trust_score, 85);
    assert!(!state.apply_analysis(id + 1, 85, vec![]));
    assert_eq!(state.update_device_status(id, DeviceStatus::Blocked), Some(DeviceStatus::Pending));
    assert_eq!(state.find_by_sysfs_path("/sys/1-2"), Some(id));
    assert_eq!(state.list_devices().len(), 1);
    assert!(state.remove_device(id).is_some());
    assert_eq!(state.update_device_status(id, DeviceStatus::Blocked), None);
}

#[test]
fn state_device_counts_by_status() {
    let mut state = AppState::new(AegisConfig::default());
    assert_eq!(state.device_counts().len(), 0);
    let a = device("1-1");
    let b = device("1-2");
    let c = device("1-3");
    let (ia, ib) = (a.session_id, b.session_id);
    state.add_device(a);
    state.add_device(b);
    state.add_device(c);
    state.update_device_status(ia, DeviceStatus::Blocked);
    state.update_device_status(ib, DeviceStatus::Blocked);
    let counts = state.device_counts();
    assert_eq!(counts.len(), 2);
    assert_eq!(counts.get("🚫 Blocked"), Some(&2));
    assert_eq!(counts.get("⏳ Pending"), Some(&1));
    assert_eq!(counts.get("✅ Authorized"), None);
}

#[test]
fn monitor_knows_ports() {
    let mut state = AppState::new(AegisConfig::default());
    let mut monitor = DeviceMonitor::new();
    assert!(!monitor.knows_port("1-2"));
    monitor.register_existing(&mut state, device("1-2"));
    assert!(monitor.knows_port("1-2"));
    assert!(!monitor.knows_port("1-3"));
}

#[test]
fn state_update_status_touches_one_device() {
    let mut state = AppState::new(AegisConfig::default());
    let a = device("1-1");
    let b = device("1-2");
    let (ia, ib) = (a.session_id, b.session_id);
    let b_updated = b.last_updated;
    state.add_device(a);
    state.add_device(b);
    assert_eq!(state.update_device_status(ia, DeviceStatus::Authorized), Some(DeviceStatus::Pending));
    assert_eq!(state.get_device(ia).unwrap().status, DeviceStatus::Authorized);
    assert_eq!(state.get_device(ib).unwrap().status, DeviceStatus::Pending);
    assert_eq!(state.get_device(ib).unwrap().last_updated, b_updated);
}
