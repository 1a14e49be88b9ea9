//! The USB device model: identity, topology, authorization status and the
//! analysis results attached to a device.
use crate::clock::now_nanos;
use crate::ids::random_uuid;
use crate::text::{hex_fixed_lower, push_char, push_hex_fixed};
use vstd::prelude::*;
use vstd::string::*;

verus! {

/// Current authorization status of a USB device.
#[derive(Clone, Copy, Debug, PartialEq, Eq, Structural)]
pub enum DeviceStatus {
    /// Device detected, pending analysis.
    Pending,
    /// Currently being analyzed by the engine.
    Analyzing,
    /// Blocked: failed analysis or policy check.
    Blocked,
    /// Authorized: passed all checks, mount allowed.
    Authorized,
    /// Quarantined: suspicious but an administrator may override.
    Quarantined,
    /// Ejected: device was safely removed.
    Ejected,
}

/// The human-readable label of a status.
pub open spec fn status_label(s: DeviceStatus) -> Seq<char> {
    match s {
        DeviceStatus::Pending => "⏳ Pending"@,
        DeviceStatus::Analyzing => "🔍 Analyzing"@,
        DeviceStatus::Blocked => "🚫 Blocked"@,
        DeviceStatus::Authorized => "✅ Authorized"@,
        DeviceStatus::Quarantined => "⚠️ Quarantined"@,
        DeviceStatus::Ejected => "⏏️ Ejected"@,
    }
}

/// Different statuses have different labels.
pub proof fn lemma_status_label_injective(a: DeviceStatus, b: DeviceStatus)
    ensures
        status_label(a) == status_label(b) ==> a == b,
{
    reveal_strlit("⏳ Pending");
    reveal_strlit("🔍 Analyzing");
    reveal_strlit("🚫 Blocked");
    reveal_strlit("✅ Authorized");
    reveal_strlit("⚠️ Quarantined");
    reveal_strlit("⏏️ Ejected");
    if a != b {
        assert(status_label(a)[0] != status_label(b)[0]);
    }
}

impl DeviceStatus {
    /// The human-readable label of the status, with its icon.
    pub fn label(&self) -> (r: String)
        ensures
            r@ == status_label(*self),
    {
        match self {
            DeviceStatus::Pending => String::from_str("⏳ Pending"),
            DeviceStatus::Analyzing => String::from_str("🔍 Analyzing"),
            DeviceStatus::Blocked => String::from_str("🚫 Blocked"),
            DeviceStatus::Authorized => String::from_str("✅ Authorized"),
            DeviceStatus::Quarantined => String::from_str("⚠️ Quarantined"),
            DeviceStatus::Ejected => String::from_str("⏏️ Ejected"),
        }
    }
}

/// The physical port location category.
#[derive(Clone, Copy, Debug, PartialEq, Eq, Structural)]
pub enum PortLocation {
    FrontPanel,
    RearIO,
    InternalHeader,
    Hub,
    Unknown,
}

/// The name of a port location, as `{:?}` prints it.
pub open spec fn location_name(l: PortLocation) -> Seq<char> {
    match l {
        PortLocation::FrontPanel => "FrontPanel"@,
        PortLocation::RearIO => "RearIO"@,
        PortLocation::InternalHeader => "InternalHeader"@,
        PortLocation::Hub => "Hub"@,
        PortLocation::Unknown => "Unknown"@,
    }
}

impl PortLocation {
    /// The name of the location, as `{:?}` prints it.
    pub fn name(&self) -> (r: String)
        ensures
            r@ == location_name(*self),
    {
        match self {
            PortLocation::FrontPanel => String::from_str("FrontPanel"),
            PortLocation::RearIO => String::from_str("RearIO"),
            PortLocation::InternalHeader => String::from_str("InternalHeader"),
            PortLocation::Hub => String::from_str("Hub"),
            PortLocation::Unknown => String::from_str("Unknown"),
        }
    }
}

/// Types of analysis that can be performed.
#[derive(Clone, Copy, Debug, PartialEq, Eq, Structural)]
pub enum AnalysisType {
    /// Shannon entropy scan for encrypted or packed content.
    Entropy,
    /// YARA signature matching.
    YaraSignature,
    /// HID interface spoof detection.
    HidSpoof,
    /// Hardware passport verification.
    DevicePassport,
    /// Keystroke timing anomaly detection.
    KeystrokeAnomaly,
    /// Dynamic detonation in an isolated process.
    Sandbox,
    /// Slack space and hidden sector scan.
    SlackSpace,
}

/// Result of a single analysis pass on a device or its files.
pub struct AnalysisResult {
    /// Type of analysis that was performed.
    pub analysis_type: AnalysisType,
    /// Whether this analysis flagged the device as suspicious.
    pub flagged: bool,
    /// Severity level (0 = clean, 1-3 = low, 4-6 = medium, 7-9 = high, 10 = critical).
    pub severity: u8,
    /// Human-readable summary of findings.
    pub summary: String,
    /// Detailed findings, as JSON text.
    pub details: String,
    /// When this analysis was completed (nanoseconds since the epoch).
    pub timestamp: i64,
}

impl AnalysisResult {
    /// A copy of the result.
    pub fn duplicate(&self) -> (r: Self)
        ensures
            r == *self,
    {
        AnalysisResult {
            analysis_type: self.analysis_type,
            flagged: self.flagged,
            severity: self.severity,
            summary: self.summary.clone(),
            details: self.details.clone(),
            timestamp: self.timestamp,
        }
    }
}

/// A copy of an optional string.
pub fn duplicate_opt_string(s: &Option<String>) -> (r: Option<String>)
    ensures
        r == *s,
{
    match s {
        Some(v) => Some(v.clone()),
        None => None,
    }
}

/// A copy of a list of analysis results.
pub fn duplicate_results(v: &Vec<AnalysisResult>) -> (r: Vec<AnalysisResult>)
    ensures
        r@ == v@,
{
    let mut out: Vec<AnalysisResult> = Vec::new();
    let mut i: usize = 0;
    while i < v.len()
        invariant
            i <= v@.len(),
            out@ == v@.subrange(0, i as int),
        decreases v@.len() - i,
    {
        out.push(v[i].duplicate());
        i = i + 1;
        assert(out@ =~= v@.subrange(0, i as int));
    }
    assert(v@.subrange(0, v@.len() as int) =~= v@);
    out
}

/// A physical USB device detected by the system.
pub struct UsbDevice {
    /// Unique session identifier for this device connection (a UUID).
    pub session_id: u128,
    /// USB Vendor ID (e.g. 0x0781 for SanDisk).
    pub vendor_id: u16,
    /// USB Product ID.
    pub product_id: u16,
    /// Device serial number (if available).
    pub serial_number: Option<String>,
    /// Device revision/version string.
    pub revision: Option<String>,
    /// Human-readable manufacturer name.
    pub manufacturer: Option<String>,
    /// Human-readable product name.
    pub product_name: Option<String>,
    /// USB device class code.
    pub device_class: u8,
    /// USB device subclass code.
    pub device_subclass: u8,
    /// Physical port topology path (e.g. "1-2.3").
    pub port_path: String,
    /// Bus number.
    pub bus_number: u8,
    /// Device number on the bus.
    pub device_number: u8,
    /// Block device path (e.g. "/dev/sdb") if mass storage.
    pub block_device: Option<String>,
    /// Sysfs path to the device.
    pub sysfs_path: String,
    /// Current trust/authorization status.
    pub status: DeviceStatus,
    /// Computed trust score (0-100).
    pub trust_score: u8,
    /// Hardware passport hash (SHA-256 of VID+PID+Serial+Rev).
    pub passport_hash: Option<String>,
    /// Whether HID interfaces were detected (potential spoof).
    pub has_hid_interface: bool,
    /// When the device was first seen (nanoseconds since the epoch).
    pub first_seen: i64,
    /// When the status last changed (nanoseconds since the epoch).
    pub last_updated: i64,
    /// Analysis results attached to this device.
    pub analysis_results: Vec<AnalysisResult>,
}

/// The `VID:PID` rendering of a device: two four-digit lowercase
/// hexadecimal numbers separated by a colon.
pub open spec fn vid_pid(vendor_id: u16, product_id: u16) -> Seq<char> {
    hex_fixed_lower(vendor_id as nat, 4) + seq![':'] + hex_fixed_lower(product_id as nat, 4)
}

impl UsbDevice {
    /// A device entry for a new connection: a fresh session identifier, the
    /// given identity and topology, no optional attributes, class 0, status
    /// `Pending`, trust score 0, no analysis results, and equal first-seen
    /// and last-updated instants.
    pub fn new(
        vendor_id: u16,
        product_id: u16,
        port_path: String,
        bus_number: u8,
        device_number: u8,
        sysfs_path: String,
    ) -> (d: Self)
        ensures
            d.vendor_id == vendor_id,
            d.product_id == product_id,
            d.port_path == port_path,
            d.bus_number == bus_number,
            d.device_number == device_number,
            d.sysfs_path == sysfs_path,
            d.serial_number is None,
            d.revision is None,
            d.manufacturer is None,
            d.product_name is None,
            d.device_class == 0,
            d.device_subclass == 0,
            d.block_device is None,
            d.status == DeviceStatus::Pending,
            d.trust_score == 0,
            d.passport_hash is None,
            !d.has_hid_interface,
            d.first_seen == d.last_updated,
            d.analysis_results@.len() == 0,
            d.session_id != 0,
    {
        let session_id = random_uuid();
        assert(session_id != 0) by {
            if session_id == 0 {
                assert(crate::ids::uuid_version(session_id) == 0);
            }
        }
        let now = now_nanos();
        UsbDevice {
            session_id,
            vendor_id,
            product_id,
            serial_number: None,
            revision: None,
            manufacturer: None,
            product_name: None,
            device_class: 0,
            device_subclass: 0,
            port_path,
            bus_number,
            device_number,
            block_device: None,
            sysfs_path,
            status: DeviceStatus::Pending,
            trust_score: 0,
            passport_hash: None,
            has_hid_interface: false,
            first_seen: now,
            last_updated: now,
            analysis_results: Vec::new(),
        }
    }

    /// The `VID:PID` string of the device (e.g. "0781:5583").
    pub fn vid_pid_string(&self) -> (r: String)
        ensures
            r@ == vid_pid(self.vendor_id, self.product_id),
    {
        let mut s = String::new();
        push_hex_fixed(&mut s, self.vendor_id as u64, 4, false);
        push_char(&mut s, ':');
        push_hex_fixed(&mut s, self.product_id as u64, 4, false);
        assert(s@ =~= vid_pid(self.vendor_id, self.product_id));
        s
    }

    /// Whether two entries hold the same values in every field (the analysis
    /// results compared element by element).
    pub open spec fn same_as(self, other: Self) -> bool {
        &&& self.session_id == other.session_id
        &&& self.vendor_id == other.vendor_id
        &&& self.product_id == other.product_id
        &&& self.serial_number == other.serial_number
        &&& self.revision == other.revision
        &&& self.manufacturer == other.manufacturer
        &&& self.product_name == other.product_name
        &&& self.device_class == other.device_class
        &&& self.device_subclass == other.device_subclass
        &&& self.port_path == other.port_path
        &&& self.bus_number == other.bus_number
        &&& self.device_number == other.device_number
        &&& self.block_device == other.block_device
        &&& self.sysfs_path == other.sysfs_path
        &&& self.status == other.status
        &&& self.trust_score == other.trust_score
        &&& self.passport_hash == other.passport_hash
        &&& self.has_hid_interface == other.has_hid_interface
        &&& self.first_seen == other.first_seen
        &&& self.last_updated == other.last_updated
        &&& self.analysis_results@ == other.analysis_results@
    }

    /// A copy of the device entry.
    pub fn duplicate(&self) -> (r: Self)
        ensures
            r.same_as(*self),
    {
        UsbDevice {
            session_id: self.session_id,
            vendor_id: self.vendor_id,
            product_id: self.product_id,
            serial_number: duplicate_opt_string(&self.serial_number),
            revision: duplicate_opt_string(&self.revision),
            manufacturer: duplicate_opt_string(&self.manufacturer),
            product_name: duplicate_opt_string(&self.product_name),
            device_class: self.device_class,
            device_subclass: self.device_subclass,
            port_path: self.port_path.clone(),
            bus_number: self.bus_number,
            device_number: self.device_number,
            block_device: duplicate_opt_string(&self.block_device),
            sysfs_path: self.sysfs_path.clone(),
            status: self.status,
            trust_score: self.trust_score,
            passport_hash: duplicate_opt_string(&self.passport_hash),
            has_hid_interface: self.has_hid_interface,
            first_seen: self.first_seen,
            last_updated: self.last_updated,
            analysis_results: duplicate_results(&self.analysis_results),
        }
    }
}

} // verus!
