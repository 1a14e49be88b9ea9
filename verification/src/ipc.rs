//! The messages exchanged between the daemon and its clients.
use crate::device::{DeviceStatus, UsbDevice};
use crate::ids::random_uuid;
use vstd::prelude::*;

verus! {

/// Commands that can be sent to the daemon.
pub enum DaemonCommand {
    /// Request a health check / heartbeat.
    Ping,
    /// List all currently connected devices.
    ListDevices,
    /// Get detailed info for a specific device.
    GetDevice { session_id: u128 },
    /// Authorize a device for mounting.
    AuthorizeDevice {
        session_id: u128,
        /// Mount as read-only even if authorized.
        read_only: bool,
    },
    /// Block / reject a device.
    BlockDevice { session_id: u128, reason: String },
    /// Eject / safely remove a device.
    EjectDevice { session_id: u128 },
    /// Force a re-scan / re-analysis of a device.
    RescanDevice { session_id: u128 },
    /// Get the current daemon configuration.
    GetConfig,
    /// Update the daemon configuration.
    UpdateConfig { config_json: String },
    /// Retrieve audit log entries.
    GetAuditLog {
        /// Maximum number of entries to return.
        limit: usize,
        /// Number of entries to skip.
        offset: usize,
    },
    /// Raw udev event notification from an external script.
    DeviceEvent {
        action: String,
        kernel: String,
        vendor_id: String,
        model_id: String,
        serial: String,
        devpath: String,
        timestamp: String,
    },
    /// Shut the daemon down gracefully.
    Shutdown,
}

/// Responses sent from the daemon back to clients.
pub enum DaemonResponse {
    /// Heartbeat acknowledgment.
    Pong { version: String, uptime_secs: u64 },
    /// List of all connected devices.
    DeviceList { devices: Vec<UsbDevice> },
    /// Detailed info for a single device.
    DeviceInfo { device: UsbDevice },
    /// Confirmation of a device action.
    DeviceActionResult { session_id: u128, new_status: DeviceStatus, message: String },
    /// Current daemon configuration (JSON text), or a confirmation message.
    Config { config_json: String },
    /// Audit log entries, each as JSON text.
    AuditLogEntries { entries: Vec<String>, total_count: usize },
    /// Generic success response for operations that return no data.
    Success { message: String },
    /// A real-time event pushed to connected clients.
    Event(DeviceEvent),
    /// Generic error response.
    Error { code: u32, message: String },
    /// Shutdown acknowledgment.
    ShuttingDown,
}

/// Events emitted by the daemon for real-time updates.
pub enum DeviceEvent {
    /// A new USB device was physically inserted.
    DeviceConnected { device: Box<UsbDevice> },
    /// A USB device was physically removed.
    DeviceDisconnected { session_id: u128, port_path: String },
    /// Analysis started on a device.
    AnalysisStarted { session_id: u128 },
    /// Analysis completed.
    AnalysisCompleted { session_id: u128, trust_score: u8, flagged: bool, summary: String },
    /// Device status changed (authorized, blocked, etc.).
    StatusChanged { session_id: u128, old_status: DeviceStatus, new_status: DeviceStatus },
    /// A security alert was triggered.
    SecurityAlert { session_id: u128, severity: u8, alert_type: String, message: String },
}

/// A message with a correlation identifier for request/response matching.
pub struct IpcMessage<T> {
    /// Unique message identifier (a UUID).
    pub id: u128,
    /// The actual payload.
    pub payload: T,
}

impl<T> IpcMessage<T> {
    /// A message with a fresh random identifier.
    pub fn new(payload: T) -> (m: Self)
        ensures
            m.payload == payload,
            m.id != 0,
    {
        let id = random_uuid();
        assert(id != 0) by {
            if id == 0 {
                assert(crate::ids::uuid_version(id) == 0);
            }
        }
        IpcMessage { id, payload }
    }

    /// A message with the given identifier (a reply carries the request's).
    pub fn with_id(id: u128, payload: T) -> (m: Self)
        ensures
            m.id == id,
            m.payload == payload,
    {
        IpcMessage { id, payload }
    }
}

} // verus!
