//! The daemon's reaction to devices arriving and leaving: zero-trust
//! admission (power cut first, then a trusted passport, the port geo-fence,
//! or analysis) and clean-up on removal.
use crate::device::{DeviceStatus, UsbDevice};
use crate::handler::{AuditData, AuditRecord};
use crate::policy::device_passport::{generate_passport, is_trusted, passport_of};
use crate::policy::geofence::{geofence_verdict, rule_list, GeofenceEngine};
use crate::state::AppState;
use crate::table::NamedTable;
use vstd::prelude::*;
use vstd::string::*;

verus! {

/// What to do after a device was admitted. In every case the port's power
/// is cut first; the device is then registered with the status given.
pub enum Admission {
    /// The device's port already holds a known device: nothing is done.
    AlreadyKnown,
    /// The passport is trusted: the device is registered as authorized and
    /// its port's power is restored.
    Trusted { passport: String },
    /// The geo-fence refuses the port: the device is registered as blocked.
    Refused { reason: String },
    /// The device is registered as pending; record `audit`, then analyse
    /// the device.
    Analyze { audit: AuditRecord },
}

/// Tracks the ports that hold a known device.
pub struct DeviceMonitor {
    known_ports: NamedTable<bool>,
}

impl DeviceMonitor {
    /// The ports that hold a known device.
    pub closed spec fn ports(self) -> Set<Seq<char>> {
        self.known_ports.view().dom()
    }

    /// A monitor that knows no port.
    pub fn new() -> (m: Self)
        ensures
            m.ports() == Set::<Seq<char>>::empty(),
    {
        let m = DeviceMonitor { known_ports: NamedTable::new() };
        assert(m.ports() =~= Set::<Seq<char>>::empty());
        m
    }

    /// Whether a device is known on the port `port_path`; a device
    /// plugged into such a port is ignored (see
    /// [`DeviceMonitor::on_device_added`]), any other one has its port's
    /// power cut before it is admitted.
    pub fn knows_port(&self, port_path: &str) -> (r: bool)
        ensures
            r == self.ports().contains(port_path@),
    {
        let r = self.known_ports.find(port_path).is_some();
        proof {
            if r {
                assert(self.known_ports.view().contains_key(port_path@));
            }
        }
        r
    }

    /// Registers a device found when the daemon starts: its port becomes
    /// known and the device is added as it is, without checks.
    pub fn register_existing(&mut self, state: &mut AppState, device: UsbDevice)
        ensures
            final(self).ports() == old(self).ports().insert(device.port_path@),
            final(state).device_map() == old(state).device_map().insert(device.session_id, device),
            final(state).config_spec() == old(state).config_spec(),
    {
        self.known_ports.insert(device.port_path.clone(), true);
        state.add_device(device);
    }

    /// Handles a device that was plugged in. A device on a known port is
    /// ignored. Otherwise its port becomes known, its power is to be cut,
    /// and then: a device whose passport is in `trusted_passports` is
    /// registered as authorized (its power is to be restored); a device that
    /// the geo-fence refuses is registered as blocked; any other device is
    /// registered as pending, to be recorded in the audit log and analysed.
    pub fn on_device_added(
        &mut self,
        state: &mut AppState,
        device: UsbDevice,
        trusted_passports: &Vec<String>,
        geofence: &GeofenceEngine,
    ) -> (r: Admission)
        ensures
            final(state).config_spec() == old(state).config_spec(),
            old(self).ports().contains(device.port_path@) ==> {
                &&& r is AlreadyKnown
                &&& final(self).ports() == old(self).ports()
                &&& final(state).device_map() == old(state).device_map()
            },
            !old(self).ports().contains(device.port_path@) ==> {
                let trusted = exists|i: int|
                    0 <= i < trusted_passports@.len() && #[trigger] trusted_passports@[i]@
                        == passport_of(device);
                let verdict = geofence_verdict(
                    rule_list(geofence.table()),
                    device.port_path@,
                    device.device_class,
                );
                &&& final(self).ports() == old(self).ports().insert(device.port_path@)
                &&& trusted ==> (r matches Admission::Trusted { passport } && passport@
                    == passport_of(device) && final(state).device_map() == old(
                    state,
                ).device_map().insert(
                    device.session_id,
                    UsbDevice { status: DeviceStatus::Authorized, ..device },
                ))
                &&& !trusted && !verdict.allowed ==> (r matches Admission::Refused { reason }
                    && reason@ == verdict.reason && final(state).device_map() == old(
                    state,
                ).device_map().insert(
                    device.session_id,
                    UsbDevice { status: DeviceStatus::Blocked, ..device },
                ))
                &&& !trusted && verdict.allowed ==> (r matches Admission::Analyze { audit }
                    && audit.category@ == "device"@ && audit.action@ == "device_connected"@
                    && audit.severity == 1 && audit.message@ == "New USB device detected"@
                    && (audit.data matches AuditData::SessionVidPid { session_id, vid_pid }
                    && session_id == device.session_id && vid_pid@ == crate::device::vid_pid(
                    device.vendor_id,
                    device.product_id,
                )) && final(state).device_map() == old(state).device_map().insert(
                    device.session_id,
                    device,
                ))
            },
    {
        if self.known_ports.find(device.port_path.as_str()).is_some() {
            proof {
                assert(self.known_ports.view().contains_key(device.port_path@));
            }
            return Admission::AlreadyKnown;
        }
        proof {
            assert(!self.known_ports.view().contains_key(device.port_path@));
        }
        self.known_ports.insert(device.port_path.clone(), true);
        proof {
            assert(self.ports() =~= old(self).ports().insert(device.port_path@));
        }
        let passport = generate_passport(&device);
        if is_trusted(passport.as_str(), trusted_passports.as_slice()) {
            let mut authorized = device;
            authorized.status = DeviceStatus::Authorized;
            state.add_device(authorized);
            return Admission::Trusted { passport };
        }
        let verdict = geofence.check_device(&device);
        if !verdict.allowed {
            let mut blocked = device;
            blocked.status = DeviceStatus::Blocked;
            state.add_device(blocked);
            return Admission::Refused { reason: verdict.reason };
        }
        let session_id = device.session_id;
        let vid_pid = device.vid_pid_string();
        state.add_device(device);
        Admission::Analyze {
            audit: AuditRecord {
                category: String::from_str("device"),
                action: String::from_str("device_connected"),
                severity: 1,
                message: String::from_str("New USB device detected"),
                data: AuditData::SessionVidPid { session_id, vid_pid },
            },
        }
    }

    /// Handles a device that was unplugged, identified by its sysfs path:
    /// the connected device with that path, if any, is removed and its port
    /// forgotten, and the audit record of the removal is returned.
    pub fn on_device_removed(&mut self, state: &mut AppState, sysfs_path: &str) -> (r: Option<
        AuditRecord,
    >)
        ensures
            final(state).config_spec() == old(state).config_spec(),
            match r {
                Some(a) => exists|k: u128| {
                    &&& #[trigger] old(state).device_map().contains_key(k)
                    &&& old(state).device_map()[k].sysfs_path@ == sysfs_path@
                    &&& final(state).device_map() == old(state).device_map().remove(k)
                    &&& final(self).ports() == old(self).ports().remove(
                        old(state).device_map()[k].port_path@,
                    )
                    &&& a.category@ == "device"@ && a.action@ == "device_disconnected"@
                    &&& a.severity == 1 && a.message@ == "USB device removed"@
                    &&& a.data matches AuditData::SessionPort { session_id, port }
                    &&& session_id == k && port@ == old(state).device_map()[k].port_path@
                },
                None => {
                    &&& forall|k: u128| #[trigger]
                        old(state).device_map().contains_key(k) ==> old(state).device_map()[k].sysfs_path@
                            != sysfs_path@
                    &&& final(state).device_map() == old(state).device_map()
                    &&& final(self).ports() == old(self).ports()
                },
            },
    {
        let sid = match state.find_by_sysfs_path(sysfs_path) {
            Some(k) => k,
            None => {
                return None;
            },
        };
        let port = match state.get_device(sid) {
            Some(d) => d.port_path.clone(),
            None => {
                return None;
            },
        };
        self.known_ports.remove(port.as_str());
        proof {
            assert(self.ports() =~= old(self).ports().remove(port@));
        }
        state.remove_device(sid);
        Some(
            AuditRecord {
                category: String::from_str("device"),
                action: String::from_str("device_disconnected"),
                severity: 1,
                message: String::from_str("USB device removed"),
                data: AuditData::SessionPort { session_id: sid, port },
            },
        )
    }
}

} // verus!
