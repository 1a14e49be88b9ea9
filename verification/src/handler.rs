//! The daemon's command handling: access control over commands, the state
//! changes each command makes, the reply, and the outside effects (port
//! power and audit records) that the caller carries out.
use crate::config::{AegisConfig, RolePermissions};
use crate::device::DeviceStatus;
use crate::ids::{uuid_hyphenated, uuid_to_string};
use crate::ipc::{DaemonCommand, DaemonResponse};
use crate::state::{is_listing_of, AppState};
use crate::text::push_str;
use vstd::prelude::*;
use vstd::string::*;

verus! {

/// The structured data of an audit record.
pub enum AuditData {
    /// No data (`{}`).
    Empty,
    /// The session identifier of a device.
    Session { session_id: u128 },
    /// The session identifier of a device and the reason of an action.
    SessionReason { session_id: u128, reason: String },
    /// The session identifier and the `VID:PID` of a device.
    SessionVidPid { session_id: u128, vid_pid: String },
    /// The session identifier of a device and the port it was on.
    SessionPort { session_id: u128, port: String },
}

/// An audit record that the caller appends to the audit log.
pub struct AuditRecord {
    pub category: String,
    pub action: String,
    pub severity: u8,
    pub message: String,
    pub data: AuditData,
}

/// A change of port power that the caller applies through sysfs.
pub enum PortAction {
    /// Re-enable the port at this sysfs path.
    Restore { sysfs_path: String },
    /// Disable the port at this sysfs path.
    Kill { sysfs_path: String },
}

/// What handling a command comes to.
pub enum Step {
    /// Send `response`; first apply `port`, then append `audit`, when given.
    Reply { response: DaemonResponse, port: Option<PortAction>, audit: Option<AuditRecord> },
    /// Serialize the configuration and answer with [`config_response`].
    SendConfig,
    /// Parse `config_json` as a configuration and answer with
    /// [`apply_config`].
    ApplyConfig { config_json: String },
    /// Read a page of the audit log and answer with [`audit_log_response`].
    ReadAuditLog { limit: usize, offset: usize },
}

/// The role of a client: "admin" for user id 0, "user" for everyone else.
pub open spec fn role_for_uid(uid: u32) -> Seq<char> {
    if uid == 0 {
        "admin"@
    } else {
        "user"@
    }
}

/// Whether a role with permissions `p` may issue `command`: queries and
/// device events are open to every role; authorizing and rescanning need
/// the authorize permission, blocking the block permission, ejecting the
/// eject permission, reading the configuration or the audit log the
/// view-logs permission, and changing the configuration or shutting down
/// the configure permission.
pub open spec fn command_permitted(command: DaemonCommand, p: RolePermissions) -> bool {
    match command {
        DaemonCommand::Ping => true,
        DaemonCommand::ListDevices => true,
        DaemonCommand::GetDevice { .. } => true,
        DaemonCommand::AuthorizeDevice { .. } => p.can_authorize,
        DaemonCommand::BlockDevice { .. } => p.can_block,
        DaemonCommand::EjectDevice { .. } => p.can_eject,
        DaemonCommand::RescanDevice { .. } => p.can_authorize,
        DaemonCommand::DeviceEvent { .. } => true,
        DaemonCommand::GetConfig => p.can_view_logs,
        DaemonCommand::UpdateConfig { .. } => p.can_configure,
        DaemonCommand::GetAuditLog { .. } => p.can_view_logs,
        DaemonCommand::Shutdown => p.can_configure,
    }
}

/// Whether the client with user id `uid` may issue `command` under
/// `config`: its role must be defined and permit the command.
pub open spec fn access_granted(config: AegisConfig, uid: u32, command: DaemonCommand) -> bool {
    let roles = config.policy.roles.view();
    let role = role_for_uid(uid);
    roles.contains_key(role) && command_permitted(command, roles[role])
}

/// The message of a refused command.
pub open spec fn denied_message(role: Seq<char>) -> Seq<char> {
    "Role '"@ + role + "' lacks permission for this command"@
}

/// The message about an unknown device.
pub open spec fn not_found_message(session_id: u128) -> Seq<char> {
    "Device "@ + uuid_hyphenated(session_id) + " not found"@
}

/// Whether `step` is the reply `Error { code, message }` with no effects.
pub open spec fn is_error_reply(step: Step, code: u32, message: Seq<char>) -> bool {
    step matches Step::Reply { response: DaemonResponse::Error { code: c, message: m }, port: None, audit: None }
        && c == code && m@ == message
}

/// Whether `step` reports the new status of a device with `message`.
pub open spec fn is_action_reply(
    step: Step,
    session_id: u128,
    status: DeviceStatus,
    message: Seq<char>,
) -> bool {
    step matches Step::Reply {
        response: DaemonResponse::DeviceActionResult { session_id: s, new_status: st, message: m },
        ..
    } && s == session_id && st == status && m@ == message
}

/// Whether the audit record `a` has the given contents.
pub open spec fn is_record(
    a: AuditRecord,
    category: Seq<char>,
    action: Seq<char>,
    severity: u8,
    message: Seq<char>,
) -> bool {
    a.category@ == category && a.action@ == action && a.severity == severity && a.message@ == message
}

/// Access control of the daemon: a command is refused (answered 403, state
/// untouched) exactly when the client's role (`admin` for user id 0, `user`
/// otherwise) is undefined or lacks the permission the command needs: none
/// for pings, listings, device queries and device events; `can_authorize`
/// to authorize or rescan; `can_block` to block; `can_eject` to eject;
/// `can_view_logs` to read the configuration or the audit log;
/// `can_configure` to change the configuration or shut down.
pub proof fn law_access_follows_role_permissions(
    before: AppState,
    after: AppState,
    command: DaemonCommand,
    uid: u32,
    now: i64,
    version: Seq<char>,
    step: Step,
)
    requires
        handled(before, after, command, uid, now, version, step),
    ensures
        ({
            let roles = before.config_spec().policy.roles.view();
            let role = if uid == 0 {
                "admin"@
            } else {
                "user"@
            };
            let allowed = roles.contains_key(role) && {
                let p = roles[role];
                match command {
                    DaemonCommand::Ping => true,
                    DaemonCommand::ListDevices => true,
                    DaemonCommand::GetDevice { .. } => true,
                    DaemonCommand::DeviceEvent { .. } => true,
                    DaemonCommand::AuthorizeDevice { .. } => p.can_authorize,
                    DaemonCommand::RescanDevice { .. } => p.can_authorize,
                    DaemonCommand::BlockDevice { .. } => p.can_block,
                    DaemonCommand::EjectDevice { .. } => p.can_eject,
                    DaemonCommand::GetConfig => p.can_view_logs,
                    DaemonCommand::GetAuditLog { .. } => p.can_view_logs,
                    DaemonCommand::UpdateConfig { .. } => p.can_configure,
                    DaemonCommand::Shutdown => p.can_configure,
                }
            };
            &&& (step matches Step::Reply { response: DaemonResponse::Error { code, .. }, .. }
                && code == 403) == !allowed
            &&& !allowed ==> {
                &&& after.device_map() == before.device_map()
                &&& after.config_spec() == before.config_spec()
                &&& step matches Step::Reply { port: None, audit: None, .. }
            }
        }),
{
}

/// Blocking is done only by a role with `can_block`: when a client whose
/// role has it blocks a connected device, that device (and only it) turns
/// `Blocked` and its port is to be cut.
pub proof fn law_block_by_permitted_role(
    before: AppState,
    after: AppState,
    session_id: u128,
    reason: String,
    uid: u32,
    now: i64,
    version: Seq<char>,
    step: Step,
)
    requires
        handled(
            before,
            after,
            DaemonCommand::BlockDevice { session_id, reason },
            uid,
            now,
            version,
            step,
        ),
        after.device_map() != before.device_map(),
    ensures
        ({
            let roles = before.config_spec().policy.roles.view();
            let role = if uid == 0 {
                "admin"@
            } else {
                "user"@
            };
            &&& roles.contains_key(role) && roles[role].can_block
            &&& before.device_map().contains_key(session_id)
            &&& after.device_map()[session_id].status == DeviceStatus::Blocked
            &&& forall|k: u128| k != session_id ==> #[trigger] after.device_map().contains_key(k)
                == before.device_map().contains_key(k) && (before.device_map().contains_key(k)
                ==> after.device_map()[k] == before.device_map()[k])
            &&& step matches Step::Reply { port: Some(PortAction::Kill { .. }), .. }
        }),
{
}

/// What handling `command` from user `uid` at instant `now` does to the
/// state `before` (giving `after`) and what it answers (`step`).
pub open spec fn handled(
    before: AppState,
    after: AppState,
    command: DaemonCommand,
    uid: u32,
    now: i64,
    version: Seq<char>,
    step: Step,
) -> bool {
    let m = before.device_map();
    let unchanged = after.device_map() == m && after.config_spec() == before.config_spec();
    &&& after.started() == before.started()
    &&& if !access_granted(before.config_spec(), uid, command) {
        unchanged && is_error_reply(step, 403, denied_message(role_for_uid(uid)))
    } else {
        match command {
            DaemonCommand::Ping => unchanged && (step matches Step::Reply {
                response: DaemonResponse::Pong { version: v, uptime_secs: u },
                port: None,
                audit: None,
            } && v@ == version && u == (if now <= before.started() {
                0
            } else {
                ((now - before.started()) / 1_000_000_000) as u64
            })),
            DaemonCommand::ListDevices => unchanged && (step matches Step::Reply {
                response: DaemonResponse::DeviceList { devices },
                port: None,
                audit: None,
            } && is_listing_of(devices@, m)),
            DaemonCommand::GetDevice { session_id } => unchanged && if m.contains_key(session_id) {
                step matches Step::Reply {
                    response: DaemonResponse::DeviceInfo { device },
                    port: None,
                    audit: None,
                } && device.same_as(m[session_id])
            } else {
                is_error_reply(step, 404, not_found_message(session_id))
            },
            DaemonCommand::AuthorizeDevice { session_id, .. } => if m.contains_key(session_id) {
                &&& after.config_spec() == before.config_spec()
                &&& after.device_map() == m.insert(
                    session_id,
                    crate::device::UsbDevice { status: DeviceStatus::Authorized, ..m[session_id] },
                )
                &&& is_action_reply(
                    step,
                    session_id,
                    DeviceStatus::Authorized,
                    "Device authorized for mounting"@,
                )
                &&& step matches Step::Reply {
                    port: Some(PortAction::Restore { sysfs_path }),
                    audit: Some(a),
                    ..
                }
                &&& sysfs_path == m[session_id].sysfs_path
                &&& is_record(
                    a,
                    "policy"@,
                    "device_authorized"@,
                    2,
                    "Device "@ + uuid_hyphenated(session_id) + " authorized"@,
                )
                &&& a.data == AuditData::Session { session_id }
            } else {
                unchanged && is_error_reply(step, 404, not_found_message(session_id))
            },
            DaemonCommand::BlockDevice { session_id, reason } => if m.contains_key(session_id) {
                &&& after.config_spec() == before.config_spec()
                &&& after.device_map() == m.insert(
                    session_id,
                    crate::device::UsbDevice { status: DeviceStatus::Blocked, ..m[session_id] },
                )
                &&& is_action_reply(
                    step,
                    session_id,
                    DeviceStatus::Blocked,
                    "Device blocked: "@ + reason@,
                )
                &&& step matches Step::Reply {
                    port: Some(PortAction::Kill { sysfs_path }),
                    audit: Some(a),
                    ..
                }
                &&& sysfs_path == m[session_id].sysfs_path
                &&& is_record(
                    a,
                    "policy"@,
                    "device_blocked"@,
                    8,
                    "Administrator blocked device: "@ + reason@,
                )
                &&& a.data matches AuditData::SessionReason { session_id: s, reason: r }
                &&& s == session_id && r@ == reason@
            } else {
                unchanged && is_error_reply(step, 404, not_found_message(session_id))
            },
            DaemonCommand::EjectDevice { session_id } => if m.contains_key(session_id) {
                &&& after.config_spec() == before.config_spec()
                &&& after.device_map() == m.remove(session_id)
                &&& is_action_reply(
                    step,
                    session_id,
                    DeviceStatus::Ejected,
                    "Device safely ejected"@,
                )
                &&& step matches Step::Reply { port: None, audit: Some(a), .. }
                &&& is_record(
                    a,
                    "device"@,
                    "device_ejected"@,
                    1,
                    "Device "@ + uuid_hyphenated(session_id) + " safely ejected"@,
                )
                &&& a.data == AuditData::Session { session_id }
            } else {
                unchanged && is_error_reply(step, 404, not_found_message(session_id))
            },
            DaemonCommand::RescanDevice { session_id } => if m.contains_key(session_id) {
                &&& after.config_spec() == before.config_spec()
                &&& after.device_map() == m.insert(
                    session_id,
                    crate::device::UsbDevice {
                        status: DeviceStatus::Analyzing,
                        last_updated: now,
                        ..m[session_id]
                    },
                )
                &&& is_action_reply(
                    step,
                    session_id,
                    DeviceStatus::Analyzing,
                    "Re-analysis started"@,
                )
                &&& step matches Step::Reply { port: None, audit: None, .. }
            } else {
                unchanged && is_error_reply(step, 404, not_found_message(session_id))
            },
            DaemonCommand::GetConfig => unchanged && step is SendConfig,
            DaemonCommand::UpdateConfig { config_json } => unchanged && (step matches Step::ApplyConfig {
                config_json: j,
            } && j == config_json),
            DaemonCommand::GetAuditLog { limit, offset } => unchanged && (step matches Step::ReadAuditLog {
                limit: l,
                offset: o,
            } && l == limit && o == offset),
            DaemonCommand::DeviceEvent { .. } => unchanged && (step matches Step::Reply {
                response: DaemonResponse::Success { message },
                port: None,
                audit: None,
            } && message@ == "Event acknowledged"@),
            DaemonCommand::Shutdown => unchanged && (step matches Step::Reply {
                response: DaemonResponse::ShuttingDown,
                port: None,
                audit: None,
            }),
        }
    }
}

/// Whether a role with permissions `p` may issue `command`.
pub fn has_permission(command: &DaemonCommand, p: &RolePermissions) -> (r: bool)
    ensures
        r == command_permitted(*command, *p),
{
    match command {
        DaemonCommand::Ping => true,
        DaemonCommand::ListDevices => true,
        DaemonCommand::GetDevice { .. } => true,
        DaemonCommand::AuthorizeDevice { .. } => p.can_authorize,
        DaemonCommand::BlockDevice { .. } => p.can_block,
        DaemonCommand::EjectDevice { .. } => p.can_eject,
        DaemonCommand::RescanDevice { .. } => p.can_authorize,
        DaemonCommand::DeviceEvent { .. } => true,
        DaemonCommand::GetConfig => p.can_view_logs,
        DaemonCommand::UpdateConfig { .. } => p.can_configure,
        DaemonCommand::GetAuditLog { .. } => p.can_view_logs,
        DaemonCommand::Shutdown => p.can_configure,
    }
}

/// "Device <id> not found".
fn not_found(session_id: u128) -> (r: String)
    ensures
        r@ == not_found_message(session_id),
{
    let mut s = String::from_str("Device ");
    push_str(&mut s, uuid_to_string(session_id).as_str());
    push_str(&mut s, " not found");
    assert(s@ =~= not_found_message(session_id));
    s
}

/// "<prefix><id><suffix>".
fn around_id(prefix: &str, session_id: u128, suffix: &str) -> (r: String)
    ensures
        r@ == prefix@ + uuid_hyphenated(session_id) + suffix@,
{
    let mut s = String::from_str(prefix);
    push_str(&mut s, uuid_to_string(session_id).as_str());
    push_str(&mut s, suffix);
    s
}

/// "<prefix><text>".
fn prefixed(prefix: &str, text: &str) -> (r: String)
    ensures
        r@ == prefix@ + text@,
{
    let mut s = String::from_str(prefix);
    push_str(&mut s, text);
    s
}

/// Handles `command` from the client with user id `uid` at instant `now`
/// (`version` is the daemon's version, reported by `Ping`): checks the
/// client's role against the command, applies the command to `state`, and
/// says what to answer and which effects to carry out (see [`handled`]).
pub fn handle_command(
    state: &mut AppState,
    command: DaemonCommand,
    uid: u32,
    now: i64,
    version: &str,
) -> (step: Step)
    ensures
        handled(*old(state), *final(state), command, uid, now, version@, step),
{
    let role_name = if uid == 0 {
        "admin"
    } else {
        "user"
    };
    let has_access = match state.config().policy.roles.get(role_name) {
        Some(perms) => has_permission(&command, perms),
        None => false,
    };
    if !has_access {
        let message = around_id_free(role_name);
        return Step::Reply {
            response: DaemonResponse::Error { code: 403, message },
            port: None,
            audit: None,
        };
    }
    match command {
        DaemonCommand::Ping => Step::Reply {
            response: DaemonResponse::Pong {
                version: version.to_owned(),
                uptime_secs: state.uptime_secs_at(now),
            },
            port: None,
            audit: None,
        },
        DaemonCommand::ListDevices => Step::Reply {
            response: DaemonResponse::DeviceList { devices: state.list_devices() },
            port: None,
            audit: None,
        },
        DaemonCommand::GetDevice { session_id } => match state.get_device(session_id) {
            Some(device) => Step::Reply {
                response: DaemonResponse::DeviceInfo { device: device.duplicate() },
                port: None,
                audit: None,
            },
            None => Step::Reply {
                response: DaemonResponse::Error { code: 404, message: not_found(session_id) },
                port: None,
                audit: None,
            },
        },
        DaemonCommand::AuthorizeDevice { session_id, .. } => {
            let sysfs_path = match state.get_device(session_id) {
                Some(device) => device.sysfs_path.clone(),
                None => {
                    return Step::Reply {
                        response: DaemonResponse::Error {
                            code: 404,
                            message: not_found(session_id),
                        },
                        port: None,
                        audit: None,
                    };
                },
            };
            state.set_status(session_id, DeviceStatus::Authorized);
            Step::Reply {
                response: DaemonResponse::DeviceActionResult {
                    session_id,
                    new_status: DeviceStatus::Authorized,
                    message: String::from_str("Device authorized for mounting"),
                },
                port: Some(PortAction::Restore { sysfs_path }),
                audit: Some(
                    AuditRecord {
                        category: String::from_str("policy"),
                        action: String::from_str("device_authorized"),
                        severity: 2,
                        message: around_id("Device ", session_id, " authorized"),
                        data: AuditData::Session { session_id },
                    },
                ),
            }
        },
        DaemonCommand::BlockDevice { session_id, reason } => {
            let sysfs_path = match state.get_device(session_id) {
                Some(device) => device.sysfs_path.clone(),
                None => {
                    return Step::Reply {
                        response: DaemonResponse::Error {
                            code: 404,
                            message: not_found(session_id),
                        },
                        port: None,
                        audit: None,
                    };
                },
            };
            state.set_status(session_id, DeviceStatus::Blocked);
            let message = prefixed("Device blocked: ", reason.as_str());
            let audit_message = prefixed("Administrator blocked device: ", reason.as_str());
            Step::Reply {
                response: DaemonResponse::DeviceActionResult {
                    session_id,
                    new_status: DeviceStatus::Blocked,
                    message,
                },
                port: Some(PortAction::Kill { sysfs_path }),
                audit: Some(
                    AuditRecord {
                        category: String::from_str("policy"),
                        action: String::from_str("device_blocked"),
                        severity: 8,
                        message: audit_message,
                        data: AuditData::SessionReason { session_id, reason },
                    },
                ),
            }
        },
        DaemonCommand::EjectDevice { session_id } => match state.remove_device(session_id) {
            Some(_device) => Step::Reply {
                response: DaemonResponse::DeviceActionResult {
                    session_id,
                    new_status: DeviceStatus::Ejected,
                    message: String::from_str("Device safely ejected"),
                },
                port: None,
                audit: Some(
                    AuditRecord {
                        category: String::from_str("device"),
                        action: String::from_str("device_ejected"),
                        severity: 1,
                        message: around_id("Device ", session_id, " safely ejected"),
                        data: AuditData::Session { session_id },
                    },
                ),
            },
            None => Step::Reply {
                response: DaemonResponse::Error { code: 404, message: not_found(session_id) },
                port: None,
                audit: None,
            },
        },
        DaemonCommand::RescanDevice { session_id } => match state.update_device_status_at(
            session_id,
            DeviceStatus::Analyzing,
            now,
        ) {
            Some(_) => Step::Reply {
                response: DaemonResponse::DeviceActionResult {
                    session_id,
                    new_status: DeviceStatus::Analyzing,
                    message: String::from_str("Re-analysis started"),
                },
                port: None,
                audit: None,
            },
            None => Step::Reply {
                response: DaemonResponse::Error { code: 404, message: not_found(session_id) },
                port: None,
                audit: None,
            },
        },
        DaemonCommand::GetConfig => Step::SendConfig,
        DaemonCommand::UpdateConfig { config_json } => Step::ApplyConfig { config_json },
        DaemonCommand::GetAuditLog { limit, offset } => Step::ReadAuditLog { limit, offset },
        DaemonCommand::DeviceEvent { .. } => Step::Reply {
            response: DaemonResponse::Success { message: String::from_str("Event acknowledged") },
            port: None,
            audit: None,
        },
        DaemonCommand::Shutdown => Step::Reply {
            response: DaemonResponse::ShuttingDown,
            port: None,
            audit: None,
        },
    }
}

/// The message of a refused command, for `role`.
fn around_id_free(role: &str) -> (r: String)
    ensures
        r@ == denied_message(role@),
{
    let mut s = String::from_str("Role '");
    push_str(&mut s, role);
    push_str(&mut s, "' lacks permission for this command");
    s
}

/// The answer to `GetConfig`, given the serialized configuration or the
/// serializer's error message.
pub fn config_response(serialized: Result<String, String>) -> (r: DaemonResponse)
    ensures
        match serialized {
            Ok(json) => r == DaemonResponse::Config { config_json: json },
            Err(e) => r matches DaemonResponse::Error { code, message } && code == 500 && message@
                == "Failed to serialize config: "@ + e@,
        },
{
    match serialized {
        Ok(json) => DaemonResponse::Config { config_json: json },
        Err(e) => DaemonResponse::Error {
            code: 500,
            message: prefixed("Failed to serialize config: ", e.as_str()),
        },
    }
}

/// The answer to `UpdateConfig`, given the parsed configuration or the
/// parser's error message: a configuration that parsed replaces the
/// current one and is recorded in the audit log.
pub fn apply_config(state: &mut AppState, parsed: Result<AegisConfig, String>) -> (r: (
    DaemonResponse,
    Option<AuditRecord>,
))
    ensures
        final(state).device_map() == old(state).device_map(),
        final(state).started() == old(state).started(),
        match parsed {
            Ok(c) => {
                &&& final(state).config_spec() == c
                &&& r.0 matches DaemonResponse::Config { config_json }
                &&& config_json@ == "Configuration updated successfully"@
                &&& r.1 matches Some(a)
                &&& is_record(
                    a,
                    "system"@,
                    "config_updated"@,
                    3,
                    "Daemon configuration updated via IPC"@,
                )
                &&& a.data == AuditData::Empty
            },
            Err(e) => {
                &&& final(state).config_spec() == old(state).config_spec()
                &&& r.0 matches DaemonResponse::Error { code, message }
                &&& code == 400
                &&& message@ == "Invalid config JSON: "@ + e@
                &&& r.1 is None
            },
        },
{
    match parsed {
        Ok(c) => {
            state.set_config(c);
            (
                DaemonResponse::Config {
                    config_json: String::from_str("Configuration updated successfully"),
                },
                Some(
                    AuditRecord {
                        category: String::from_str("system"),
                        action: String::from_str("config_updated"),
                        severity: 3,
                        message: String::from_str("Daemon configuration updated via IPC"),
                        data: AuditData::Empty,
                    },
                ),
            )
        },
        Err(e) => (
            DaemonResponse::Error { code: 400, message: prefixed("Invalid config JSON: ", e.as_str()) },
            None,
        ),
    }
}

/// The answer to `GetAuditLog`, given the page that was read (entries as
/// JSON text, and the total number of entries) or the reader's error
/// message.
pub fn audit_log_response(read: Result<(Vec<String>, usize), String>) -> (r: DaemonResponse)
    ensures
        match read {
            Ok((entries, total)) => r == DaemonResponse::AuditLogEntries {
                entries,
                total_count: total,
            },
            Err(e) => r matches DaemonResponse::Error { code, message } && code == 500 && message@
                == "Failed to read audit log: "@ + e@,
        },
{
    match read {
        Ok((entries, total)) => DaemonResponse::AuditLogEntries { entries, total_count: total },
        Err(e) => DaemonResponse::Error {
            code: 500,
            message: prefixed("Failed to read audit log: ", e.as_str()),
        },
    }
}

} // verus!
