//! Configuration of the daemon: sockets, analysis toggles, policy (trusted
//! passports, port geo-fencing rules, roles) and audit logging.
use crate::device::PortLocation;
use crate::table::NamedTable;
use vstd::prelude::*;
use vstd::string::*;

verus! {

/// Root configuration of the daemon.
pub struct AegisConfig {
    /// General daemon settings.
    pub daemon: DaemonConfig,
    /// Analysis engine thresholds and toggles.
    pub analysis: AnalysisConfig,
    /// Policy and access control settings.
    pub policy: PolicyConfig,
    /// Logging configuration.
    pub logging: LoggingConfig,
}

/// General daemon settings.
pub struct DaemonConfig {
    /// Path to the Unix domain socket.
    pub socket_path: String,
    /// Maximum connected clients.
    pub max_clients: usize,
    /// Device authorization timeout in seconds (auto-block if not approved).
    pub auth_timeout_secs: u64,
    /// Enable kiosk/valet mode (block all devices when screen locked).
    pub kiosk_mode: bool,
}

/// Analysis engine thresholds and toggles.
pub struct AnalysisConfig {
    /// Shannon entropy threshold in bits per byte (files above it are
    /// flagged), held as the IEEE-754 bit pattern of the `f64`; the library
    /// carries it and never computes with it.
    pub entropy_threshold_bits: u64,
    /// Enable YARA signature scanning.
    pub yara_enabled: bool,
    /// Path to the YARA rules directory.
    pub yara_rules_path: String,
    /// Enable HID spoof detection.
    pub hid_spoof_detection: bool,
    /// Enable keystroke anomaly detection.
    pub ml_anomaly_detection: bool,
    /// Enable dynamic sandbox detonation.
    pub sandbox_enabled: bool,
    /// Enable honey-token implantation on approved devices.
    pub honey_tokens_enabled: bool,
}

/// The bit pattern of the `f64` value 7.5, the default entropy threshold.
pub const DEFAULT_ENTROPY_THRESHOLD_BITS: u64 = 0x401E_0000_0000_0000u64;

/// Policy and access control settings.
pub struct PolicyConfig {
    /// Default action for unknown devices: "block" or "quarantine".
    pub default_action: String,
    /// Trusted device passport hashes (pre-approved devices).
    pub trusted_passports: Vec<String>,
    /// Port geo-fencing rules, by rule name.
    pub geofence_rules: NamedTable<GeofenceRule>,
    /// Role definitions, by role name.
    pub roles: NamedTable<RolePermissions>,
}

/// A geo-fencing rule for one physical port location.
pub struct GeofenceRule {
    /// Physical port location this rule applies to.
    pub location: PortLocation,
    /// Whether devices on this port are allowed.
    pub allowed: bool,
    /// Optional: restrict to specific device classes only.
    pub allowed_classes: Option<Vec<u8>>,
}

/// What a role may do.
#[derive(Clone, Copy, Debug, PartialEq, Eq, Structural)]
pub struct RolePermissions {
    /// Can authorize devices.
    pub can_authorize: bool,
    /// Can block devices.
    pub can_block: bool,
    /// Can view audit logs.
    pub can_view_logs: bool,
    /// Can modify configuration.
    pub can_configure: bool,
    /// Can eject devices.
    pub can_eject: bool,
}

/// Audit logging settings.
pub struct LoggingConfig {
    /// Path to the audit log file.
    pub log_file: String,
    /// Key of the HMAC chain that makes the log tamper-evident.
    pub hmac_key: String,
    /// Maximum log file size in MB before rotation.
    pub max_size_mb: u64,
    /// Log level filter (trace, debug, info, warn, error).
    pub level: String,
}

/// The permissions of the built-in "admin" role: everything.
pub open spec fn admin_permissions() -> RolePermissions {
    RolePermissions {
        can_authorize: true,
        can_block: true,
        can_view_logs: true,
        can_configure: true,
        can_eject: true,
    }
}

/// The permissions of the built-in "user" role: view logs and eject.
pub open spec fn user_permissions() -> RolePermissions {
    RolePermissions {
        can_authorize: false,
        can_block: false,
        can_view_logs: true,
        can_configure: false,
        can_eject: true,
    }
}

/// The permissions of the built-in "kiosk" role: nothing.
pub open spec fn kiosk_permissions() -> RolePermissions {
    RolePermissions {
        can_authorize: false,
        can_block: false,
        can_view_logs: false,
        can_configure: false,
        can_eject: false,
    }
}

impl RolePermissions {
    /// The permissions of the built-in "admin" role.
    pub fn admin() -> (r: Self)
        ensures
            r == admin_permissions(),
    {
        RolePermissions {
            can_authorize: true,
            can_block: true,
            can_view_logs: true,
            can_configure: true,
            can_eject: true,
        }
    }

    /// The permissions of the built-in "user" role.
    pub fn user() -> (r: Self)
        ensures
            r == user_permissions(),
    {
        RolePermissions {
            can_authorize: false,
            can_block: false,
            can_view_logs: true,
            can_configure: false,
            can_eject: true,
        }
    }

    /// The permissions of the built-in "kiosk" role.
    pub fn kiosk() -> (r: Self)
        ensures
            r == kiosk_permissions(),
    {
        RolePermissions {
            can_authorize: false,
            can_block: false,
            can_view_logs: false,
            can_configure: false,
            can_eject: false,
        }
    }
}

/// The built-in roles: "admin", "user" and "kiosk", in that order.
pub fn default_roles() -> (t: NamedTable<RolePermissions>)
    ensures
        t.names() == seq!["admin"@, "user"@, "kiosk"@],
        t.view() == Map::<Seq<char>, RolePermissions>::empty().insert(
            "admin"@,
            admin_permissions(),
        ).insert("user"@, user_permissions()).insert("kiosk"@, kiosk_permissions()),
{
    let mut roles = NamedTable::new();
    roles.insert(String::from_str("admin"), RolePermissions::admin());
    assert(roles.names() =~= seq!["admin"@]);
    proof {
        reveal_strlit("admin");
        reveal_strlit("user");
        reveal_strlit("kiosk");
    }
    assert(!roles.has("user"@)) by {
        if roles.has("user"@) {
            let i = choose|i: int| 0 <= i < roles.pairs().len() && #[trigger] roles.pairs()[i].0 == "user"@;
            assert(roles.names()[i] == roles.pairs()[i].0);
        }
    }
    roles.insert(String::from_str("user"), RolePermissions::user());
    assert(roles.names() =~= seq!["admin"@, "user"@]);
    assert(!roles.has("kiosk"@)) by {
        if roles.has("kiosk"@) {
            let i = choose|i: int| 0 <= i < roles.pairs().len() && #[trigger] roles.pairs()[i].0 == "kiosk"@;
            assert(roles.names()[i] == roles.pairs()[i].0);
            assert("kiosk"@[0] != "admin"@[0]);
        }
    }
    roles.insert(String::from_str("kiosk"), RolePermissions::kiosk());
    assert(roles.names() =~= seq!["admin"@, "user"@, "kiosk"@]);
    roles
}

/// The built-in geo-fencing rules: "front_panel" and "rear_io", both
/// allowing every device class.
pub fn default_geofence_rules() -> (t: NamedTable<GeofenceRule>)
    ensures
        t.names() == seq!["front_panel"@, "rear_io"@],
        t.view()["front_panel"@] == (GeofenceRule {
            location: PortLocation::FrontPanel,
            allowed: true,
            allowed_classes: None,
        }),
        t.view()["rear_io"@] == (GeofenceRule {
            location: PortLocation::RearIO,
            allowed: true,
            allowed_classes: None,
        }),
{
    let mut rules = NamedTable::new();
    rules.insert(
        String::from_str("front_panel"),
        GeofenceRule { location: PortLocation::FrontPanel, allowed: true, allowed_classes: None },
    );
    assert(rules.names() =~= seq!["front_panel"@]);
    proof {
        reveal_strlit("front_panel");
        reveal_strlit("rear_io");
    }
    assert(!rules.has("rear_io"@)) by {
        if rules.has("rear_io"@) {
            let i = choose|i: int| 0 <= i < rules.pairs().len() && #[trigger] rules.pairs()[i].0 == "rear_io"@;
            assert(rules.names()[i] == rules.pairs()[i].0);
        }
    }
    rules.insert(
        String::from_str("rear_io"),
        GeofenceRule { location: PortLocation::RearIO, allowed: true, allowed_classes: None },
    );
    assert(rules.names() =~= seq!["front_panel"@, "rear_io"@]);
    rules
}

impl Default for AegisConfig {
    /// The configuration used when no configuration file exists.
    fn default() -> (c: Self)
        ensures
            c.daemon.socket_path@ == "/tmp/aegis.sock"@,
            c.daemon.max_clients == 10,
            c.daemon.auth_timeout_secs == 300,
            !c.daemon.kiosk_mode,
            c.analysis.entropy_threshold_bits == DEFAULT_ENTROPY_THRESHOLD_BITS,
            c.analysis.yara_enabled,
            c.analysis.yara_rules_path@ == "rules/yara"@,
            c.analysis.hid_spoof_detection,
            !c.analysis.ml_anomaly_detection,
            !c.analysis.sandbox_enabled,
            !c.analysis.honey_tokens_enabled,
            c.policy.default_action@ == "quarantine"@,
            c.policy.trusted_passports@.len() == 0,
            c.policy.geofence_rules.names() == seq!["front_panel"@, "rear_io"@],
            c.policy.geofence_rules.view()["front_panel"@] == (GeofenceRule {
                location: PortLocation::FrontPanel,
                allowed: true,
                allowed_classes: None,
            }),
            c.policy.geofence_rules.view()["rear_io"@] == (GeofenceRule {
                location: PortLocation::RearIO,
                allowed: true,
                allowed_classes: None,
            }),
            c.policy.roles.names() == seq!["admin"@, "user"@, "kiosk"@],
            c.policy.roles.view() == Map::<Seq<char>, RolePermissions>::empty().insert(
                "admin"@,
                admin_permissions(),
            ).insert("user"@, user_permissions()).insert("kiosk"@, kiosk_permissions()),
            c.logging.log_file@ == "/var/log/aegis/audit.jsonl"@,
            c.logging.hmac_key@ == "change-me-in-production"@,
            c.logging.max_size_mb == 100,
            c.logging.level@ == "info"@,
    {
        AegisConfig {
            daemon: DaemonConfig {
                socket_path: String::from_str("/tmp/aegis.sock"),
                max_clients: 10,
                auth_timeout_secs: 300,
                kiosk_mode: false,
            },
            analysis: AnalysisConfig {
                entropy_threshold_bits: DEFAULT_ENTROPY_THRESHOLD_BITS,
                yara_enabled: true,
                yara_rules_path: String::from_str("rules/yara"),
                hid_spoof_detection: true,
                ml_anomaly_detection: false,
                sandbox_enabled: false,
                honey_tokens_enabled: false,
            },
            policy: PolicyConfig {
                default_action: String::from_str("quarantine"),
                trusted_passports: Vec::new(),
                geofence_rules: default_geofence_rules(),
                roles: default_roles(),
            },
            logging: LoggingConfig {
                log_file: String::from_str("/var/log/aegis/audit.jsonl"),
                hmac_key: String::from_str("change-me-in-production"),
                max_size_mb: 100,
                level: String::from_str("info"),
            },
        }
    }
}

} // verus!
