//! The client side of the daemon protocol, as the desktop interface uses
//! it: where to find the daemon, and how each reply is read.
use crate::device::UsbDevice;
use crate::ipc::DaemonResponse;
use crate::text::{decimal, push_decimal, push_str};
use vstd::prelude::*;
use vstd::string::*;

verus! {

/// The daemon socket path: `AEGIS_SOCKET_PATH` if set, else `AEGIS_SOCKET`,
/// else "/tmp/aegis.sock".
pub fn daemon_socket_path(socket_path_var: Option<String>, socket_var: Option<String>) -> (r:
    String)
    ensures
        r@ == match socket_path_var {
            Some(p) => p@,
            None => match socket_var {
                Some(p) => p@,
                None => "/tmp/aegis.sock"@,
            },
        },
{
    match socket_path_var {
        Some(p) => p,
        None => match socket_var {
            Some(p) => p,
            None => String::from_str("/tmp/aegis.sock"),
        },
    }
}

/// The message of an error reply: "Daemon Error [code]: message".
pub open spec fn daemon_error_text(code: u32, message: Seq<char>) -> Seq<char> {
    "Daemon Error ["@ + decimal(code as nat) + "]: "@ + message
}

/// A reply as the client sees it: an error reply becomes an error message,
/// every other reply is passed on.
pub fn check_reply(resp: DaemonResponse) -> (r: Result<DaemonResponse, String>)
    ensures
        match resp {
            DaemonResponse::Error { code, message } => r matches Err(e) && e@ == daemon_error_text(
                code,
                message@,
            ),
            _ => r == Ok::<DaemonResponse, String>(resp),
        },
{
    match resp {
        DaemonResponse::Error { code, message } => {
            let mut s = String::from_str("Daemon Error [");
            push_decimal(&mut s, code as u64);
            push_str(&mut s, "]: ");
            push_str(&mut s, message.as_str());
            Err(s)
        },
        other => Ok(other),
    }
}

/// The message given for a reply of the wrong kind.
pub open spec fn invalid_reply_text() -> Seq<char> {
    "Invalid response type from daemon"@
}

fn invalid_reply<T>() -> (r: Result<T, String>)
    ensures
        r matches Err(e) && e@ == invalid_reply_text(),
{
    Err(String::from_str("Invalid response type from daemon"))
}

/// The message of a device action (authorize, block, eject, rescan).
pub fn action_message(resp: DaemonResponse) -> (r: Result<String, String>)
    ensures
        match resp {
            DaemonResponse::DeviceActionResult { message, .. } => r == Ok::<String, String>(message),
            _ => r matches Err(e) && e@ == invalid_reply_text(),
        },
{
    match resp {
        DaemonResponse::DeviceActionResult { message, .. } => Ok(message),
        _ => invalid_reply(),
    }
}

/// The version and uptime of a `Pong`.
pub fn pong_status(resp: DaemonResponse) -> (r: Result<(String, u64), String>)
    ensures
        match resp {
            DaemonResponse::Pong { version, uptime_secs } => r == Ok::<(String, u64), String>(
                (version, uptime_secs),
            ),
            _ => r matches Err(e) && e@ == invalid_reply_text(),
        },
{
    match resp {
        DaemonResponse::Pong { version, uptime_secs } => Ok((version, uptime_secs)),
        _ => invalid_reply(),
    }
}

/// The devices of a `DeviceList`.
pub fn device_list(resp: DaemonResponse) -> (r: Result<Vec<UsbDevice>, String>)
    ensures
        match resp {
            DaemonResponse::DeviceList { devices } => r == Ok::<Vec<UsbDevice>, String>(devices),
            _ => r matches Err(e) && e@ == invalid_reply_text(),
        },
{
    match resp {
        DaemonResponse::DeviceList { devices } => Ok(devices),
        _ => invalid_reply(),
    }
}

/// The entries of an `AuditLogEntries` reply.
pub fn audit_entries(resp: DaemonResponse) -> (r: Result<Vec<String>, String>)
    ensures
        match resp {
            DaemonResponse::AuditLogEntries { entries, .. } => r == Ok::<Vec<String>, String>(
                entries,
            ),
            _ => r matches Err(e) && e@ == invalid_reply_text(),
        },
{
    match resp {
        DaemonResponse::AuditLogEntries { entries, .. } => Ok(entries),
        _ => invalid_reply(),
    }
}

/// The configuration text of a `Config` reply.
pub fn config_json(resp: DaemonResponse) -> (r: Result<String, String>)
    ensures
        match resp {
            DaemonResponse::Config { config_json } => r == Ok::<String, String>(config_json),
            _ => r matches Err(e) && e@ == invalid_reply_text(),
        },
{
    match resp {
        DaemonResponse::Config { config_json } => Ok(config_json),
        _ => invalid_reply(),
    }
}

/// The outcome of a configuration update: "Config updated" for a `Config`
/// reply, the message of an error reply, and an error otherwise.
pub fn config_update_outcome(resp: DaemonResponse) -> (r: Result<String, String>)
    ensures
        match resp {
            DaemonResponse::Config { .. } => r matches Ok(s) && s@ == "Config updated"@,
            DaemonResponse::Error { message, .. } => r == Err::<String, String>(message),
            _ => r matches Err(e) && e@ == invalid_reply_text(),
        },
{
    match resp {
        DaemonResponse::Config { .. } => Ok(String::from_str("Config updated")),
        DaemonResponse::Error { message, .. } => Err(message),
        _ => invalid_reply(),
    }
}

} // verus!
