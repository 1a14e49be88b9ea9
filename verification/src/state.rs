//! The daemon's shared state: its configuration and the devices currently
//! connected, indexed by session identifier.
use crate::clock::{elapsed_secs, now_nanos};
use crate::config::AegisConfig;
use crate::analysis::pipeline::status_after_analysis;
use crate::device::{
    lemma_status_label_injective, status_label, AnalysisResult, DeviceStatus, UsbDevice,
};
use crate::table::NamedTable;
use crate::text::str_eq;
use std::collections::HashMap;
use vstd::std_specs::hash::spec_hash_map_iter;
use vstd::std_specs::iter::IteratorSpec;
use vstd::prelude::*;

verus! {

broadcast use vstd::std_specs::hash::group_hash_axioms;

/// Whether `devices` lists the devices of `m` once each, in some order:
/// as many entries as the map holds, each a copy of the map's entry for its
/// session identifier, and every identifier present.
pub open spec fn is_listing_of(devices: Seq<UsbDevice>, m: Map<u128, UsbDevice>) -> bool {
    &&& devices.len() == m.len()
    &&& forall|i: int|
        0 <= i < devices.len() ==> m.contains_key(#[trigger] devices[i].session_id)
            && devices[i].same_as(m[devices[i].session_id])
    &&& forall|k: u128| #[trigger]
        m.contains_key(k) ==> exists|i: int| 0 <= i < devices.len() && devices[i].session_id == k
}

/// The number of devices in `devs` with status `s`.
pub open spec fn count_status(devs: Seq<UsbDevice>, s: DeviceStatus) -> nat
    decreases devs.len(),
{
    if devs.len() == 0 {
        0
    } else {
        count_status(devs.drop_last(), s) + if devs.last().status == s {
            1nat
        } else {
            0nat
        }
    }
}

/// Whether `t` counts the devices of `devs` by status: one entry, under the
/// status label, for each status that occurs, holding the number of devices
/// with that status.
pub open spec fn counts_by_label(t: Map<Seq<char>, usize>, devs: Seq<UsbDevice>) -> bool {
    &&& forall|s: DeviceStatus| #[trigger]
        t.contains_key(status_label(s)) == (count_status(devs, s) > 0)
    &&& forall|s: DeviceStatus|
        t.contains_key(status_label(s)) ==> t[status_label(s)] == count_status(devs, s)
    &&& forall|name: Seq<char>| #[trigger]
        t.contains_key(name) ==> exists|s: DeviceStatus| status_label(s) == name
}

proof fn lemma_count_status_bound(devs: Seq<UsbDevice>, s: DeviceStatus)
    ensures
        count_status(devs, s) <= devs.len(),
    decreases devs.len(),
{
    if devs.len() > 0 {
        lemma_count_status_bound(devs.drop_last(), s);
    }
}

/// Whole seconds from `started` to `now`, never negative.
pub open spec fn uptime_from(started: i64, now: i64) -> u64 {
    if now <= started {
        0
    } else {
        ((now - started) / 1_000_000_000) as u64
    }
}

/// The devices `m` with device `id` set to `status` and stamped as updated
/// at `now`.
pub open spec fn with_status(m: Map<u128, UsbDevice>, id: u128, status: DeviceStatus, now: i64) -> Map<
    u128,
    UsbDevice,
> {
    m.insert(id, UsbDevice { status: status, last_updated: now, ..m[id] })
}

/// Shared application state of the daemon.
pub struct AppState {
    config: AegisConfig,
    devices: HashMap<u128, UsbDevice>,
    started_at: i64,
}

impl AppState {
    /// The connected devices, by session identifier.
    pub closed spec fn device_map(self) -> Map<u128, UsbDevice> {
        self.devices@
    }

    /// The current configuration.
    pub closed spec fn config_spec(self) -> AegisConfig {
        self.config
    }

    /// When the daemon started (nanoseconds since the epoch).
    pub closed spec fn started(self) -> i64 {
        self.started_at
    }

    /// Every device is filed under its own session identifier.
    #[verifier::type_invariant]
    pub open spec fn keyed_by_session(self) -> bool {
        forall|k: u128| #[trigger]
            self.device_map().contains_key(k) ==> self.device_map()[k].session_id == k
    }

    /// State with the given configuration, no devices, started now.
    pub fn new(config: AegisConfig) -> (s: Self)
        ensures
            s.config_spec() == config,
            s.device_map() == Map::<u128, UsbDevice>::empty(),
    {
        let s = AppState { config, devices: HashMap::new(), started_at: now_nanos() };
        assert(s.device_map() =~= Map::<u128, UsbDevice>::empty());
        s
    }

    /// The current configuration.
    pub fn config(&self) -> (c: &AegisConfig)
        ensures
            *c == self.config_spec(),
    {
        &self.config
    }

    /// Replaces the configuration; the devices are kept.
    pub fn set_config(&mut self, config: AegisConfig)
        ensures
            final(self).config_spec() == config,
            final(self).device_map() == old(self).device_map(),
            final(self).started() == old(self).started(),
    {
        proof {
            use_type_invariant(&*self);
        }
        self.config = config;
    }

    /// Whole seconds between the start of the daemon and `now`, never
    /// negative.
    pub fn uptime_secs_at(&self, now: i64) -> (r: u64)
        ensures
            r == (if now <= self.started() {
                0
            } else {
                ((now - self.started()) / 1_000_000_000) as u64
            }),
    {
        elapsed_secs(self.started_at, now)
    }

    /// Whole seconds since the daemon started, at an instant read from
    /// the clock.
    pub fn uptime_secs(&self) -> (r: u64)
        ensures
            exists|now: i64| r == #[trigger] uptime_from(self.started(), now),
    {
        let now = now_nanos();
        let r = self.uptime_secs_at(now);
        assert(r == uptime_from(self.started(), now));
        r
    }

    /// Registers a device under its session identifier, replacing any entry
    /// with the same identifier.
    pub fn add_device(&mut self, device: UsbDevice)
        ensures
            final(self).device_map() == old(self).device_map().insert(device.session_id, device),
            final(self).config_spec() == old(self).config_spec(),
            final(self).started() == old(self).started(),
    {
        proof {
            use_type_invariant(&*self);
        }
        let id = device.session_id;
        let mut devices = HashMap::new();
        std::mem::swap(&mut devices, &mut self.devices);
        devices.insert(id, device);
        self.devices = devices;
    }

    /// The device with the given session identifier, if it is connected.
    pub fn get_device(&self, session_id: u128) -> (r: Option<&UsbDevice>)
        ensures
            match r {
                Some(d) => self.device_map().contains_key(session_id) && *d == self.device_map()[session_id],
                None => !self.device_map().contains_key(session_id),
            },
    {
        self.devices.get(&session_id)
    }

    /// Sets the status of a device without touching its timestamps, and
    /// returns the previous status; `None` when no such device is connected.
    pub fn set_status(&mut self, session_id: u128, status: DeviceStatus) -> (r: Option<
        DeviceStatus,
    >)
        ensures
            final(self).config_spec() == old(self).config_spec(),
            final(self).started() == old(self).started(),
            match r {
                Some(prev) => {
                    &&& old(self).device_map().contains_key(session_id)
                    &&& prev == old(self).device_map()[session_id].status
                    &&& final(self).device_map() == old(self).device_map().insert(
                        session_id,
                        UsbDevice { status, ..old(self).device_map()[session_id] },
                    )
                },
                None => {
                    &&& !old(self).device_map().contains_key(session_id)
                    &&& final(self).device_map() == old(self).device_map()
                },
            },
    {
        proof {
            use_type_invariant(&*self);
        }
        let mut devices = HashMap::new();
        std::mem::swap(&mut devices, &mut self.devices);
        let r = match devices.remove(&session_id) {
            Some(mut d) => {
                let prev = d.status;
                d.status = status;
                devices.insert(session_id, d);
                Some(prev)
            },
            None => None,
        };
        proof {
            if r is Some {
                assert(devices@ =~= old(self).device_map().insert(
                    session_id,
                    UsbDevice { status, ..old(self).device_map()[session_id] },
                ));
            } else {
                assert(devices@ =~= old(self).device_map());
            }
        }
        self.devices = devices;
        r
    }

    /// Sets the status of a device and stamps it as updated at `now`;
    /// returns the previous status, or `None` when no such device is
    /// connected.
    pub fn update_device_status_at(&mut self, session_id: u128, new_status: DeviceStatus, now: i64) -> (r:
        Option<DeviceStatus>)
        ensures
            final(self).config_spec() == old(self).config_spec(),
            final(self).started() == old(self).started(),
            match r {
                Some(prev) => {
                    &&& old(self).device_map().contains_key(session_id)
                    &&& prev == old(self).device_map()[session_id].status
                    &&& final(self).device_map() == old(self).device_map().insert(
                        session_id,
                        UsbDevice {
                            status: new_status,
                            last_updated: now,
                            ..old(self).device_map()[session_id]
                        },
                    )
                },
                None => {
                    &&& !old(self).device_map().contains_key(session_id)
                    &&& final(self).device_map() == old(self).device_map()
                },
            },
    {
        proof {
            use_type_invariant(&*self);
        }
        let mut devices = HashMap::new();
        std::mem::swap(&mut devices, &mut self.devices);
        let r = match devices.remove(&session_id) {
            Some(mut d) => {
                let prev = d.status;
                d.status = new_status;
                d.last_updated = now;
                devices.insert(session_id, d);
                Some(prev)
            },
            None => None,
        };
        proof {
            if r is Some {
                assert(devices@ =~= old(self).device_map().insert(
                    session_id,
                    UsbDevice {
                        status: new_status,
                        last_updated: now,
                        ..old(self).device_map()[session_id]
                    },
                ));
            } else {
                assert(devices@ =~= old(self).device_map());
            }
        }
        self.devices = devices;
        r
    }

    /// Sets the status of a device and stamps it as updated at an instant
    /// read from the clock; returns the previous status, or `None` when no
    /// such device is connected. Every other device is left as it was.
    pub fn update_device_status(&mut self, session_id: u128, new_status: DeviceStatus) -> (r:
        Option<DeviceStatus>)
        ensures
            final(self).config_spec() == old(self).config_spec(),
            final(self).started() == old(self).started(),
            match r {
                Some(prev) => {
                    &&& old(self).device_map().contains_key(session_id)
                    &&& prev == old(self).device_map()[session_id].status
                    &&& exists|now: i64|
                        final(self).device_map() == #[trigger] with_status(
                            old(self).device_map(),
                            session_id,
                            new_status,
                            now,
                        )
                },
                None => {
                    &&& !old(self).device_map().contains_key(session_id)
                    &&& final(self).device_map() == old(self).device_map()
                },
            },
    {
        let now = now_nanos();
        let r = self.update_device_status_at(session_id, new_status, now);
        proof {
            if r is Some {
                assert(self.device_map() == with_status(old(self).device_map(), session_id, new_status, now));
            }
        }
        r
    }

    /// Records the outcome of a device's analysis: its trust score, its
    /// results, and its new status (quarantined below a score of 40,
    /// otherwise pending approval). Returns whether the device is still
    /// connected.
    pub fn apply_analysis(&mut self, session_id: u128, trust_score: u8, results: Vec<AnalysisResult>) -> (r: bool)
        ensures
            r == old(self).device_map().contains_key(session_id),
            final(self).config_spec() == old(self).config_spec(),
            final(self).started() == old(self).started(),
            r ==> final(self).device_map() == old(self).device_map().insert(
                session_id,
                UsbDevice {
                    trust_score,
                    analysis_results: results,
                    status: if trust_score < 40 {
                        DeviceStatus::Quarantined
                    } else {
                        DeviceStatus::Pending
                    },
                    ..old(self).device_map()[session_id]
                },
            ),
            !r ==> final(self).device_map() == old(self).device_map(),
    {
        proof {
            use_type_invariant(&*self);
        }
        let mut devices = HashMap::new();
        std::mem::swap(&mut devices, &mut self.devices);
        let r = match devices.remove(&session_id) {
            Some(mut d) => {
                d.trust_score = trust_score;
                d.analysis_results = results;
                d.status = status_after_analysis(trust_score);
                devices.insert(session_id, d);
                true
            },
            None => false,
        };
        proof {
            if !r {
                assert(devices@ =~= old(self).device_map());
            } else {
                assert(devices@ =~= old(self).device_map().insert(
                    session_id,
                    UsbDevice {
                        trust_score,
                        analysis_results: results,
                        status: if trust_score < 40 {
                            DeviceStatus::Quarantined
                        } else {
                            DeviceStatus::Pending
                        },
                        ..old(self).device_map()[session_id]
                    },
                ));
            }
        }
        self.devices = devices;
        r
    }

    /// Removes a device (on disconnect or eject) and returns it.
    pub fn remove_device(&mut self, session_id: u128) -> (r: Option<UsbDevice>)
        ensures
            final(self).config_spec() == old(self).config_spec(),
            final(self).started() == old(self).started(),
            final(self).device_map() == old(self).device_map().remove(session_id),
            match r {
                Some(d) => old(self).device_map().contains_key(session_id) && d == old(self).device_map()[session_id],
                None => !old(self).device_map().contains_key(session_id) && final(self).device_map()
                    == old(self).device_map(),
            },
    {
        proof {
            use_type_invariant(&*self);
        }
        let mut devices = HashMap::new();
        std::mem::swap(&mut devices, &mut self.devices);
        let r = devices.remove(&session_id);
        proof {
            if r is None {
                assert(devices@ =~= old(self).device_map().remove(session_id));
                assert(devices@ =~= old(self).device_map());
            }
        }
        self.devices = devices;
        r
    }

    /// Copies of all connected devices, each once, in no particular order.
    pub fn list_devices(&self) -> (r: Vec<UsbDevice>)
        ensures
            is_listing_of(r@, self.device_map()),
    {
        proof {
            use_type_invariant(self);
        }
        let mut out: Vec<UsbDevice> = Vec::new();
        let iter = self.devices.iter();
        let ghost v = iter.remaining();
        assert(v == spec_hash_map_iter(&self.devices).remaining());
        for (k, d) in it: iter
            invariant
                it.seq() == v,
                v == spec_hash_map_iter(&self.devices).remaining(),
                self.keyed_by_session(),
                out@.len() == it.index(),
                forall|i: int|
                    0 <= i < out@.len() ==> self.device_map().contains_key(
                        #[trigger] out@[i].session_id,
                    ) && out@[i].same_as(self.device_map()[out@[i].session_id])
                        && out@[i].session_id == *it.seq()[i].0,
        {
            let ghost i = out@.len() as int;
            assert(v[i] == (k, d));
            assert(self.devices@.contains_key(*v[i].0));
            assert(self.devices@.contains_key(*k) && self.devices@[*k] == *d);
            out.push(d.duplicate());
        }
        proof {
            assert(out@.len() == v.len());
            assert forall|k: u128| #[trigger] self.device_map().contains_key(k) implies exists|i: int|
                0 <= i < out@.len() && out@[i].session_id == k by {
                assert(v.contains((&k, &self.devices@[k])));
                let i = choose|i: int| 0 <= i < v.len() && v[i] == (&k, &self.devices@[k]);
                assert(out@[i].session_id == k);
            }
        }
        out
    }

    /// The number of connected devices with each status, keyed by status
    /// label; statuses that no device has get no entry.
    pub fn device_counts(&self) -> (r: NamedTable<usize>)
        ensures
            exists|devs: Seq<UsbDevice>|
                is_listing_of(devs, self.device_map()) && counts_by_label(r@, devs),
    {
        let devs = self.list_devices();
        let mut t: NamedTable<usize> = NamedTable::new();
        let mut i: usize = 0;
        while i < devs.len()
            invariant
                i <= devs@.len(),
                counts_by_label(t@, devs@.subrange(0, i as int)),
            decreases devs@.len() - i,
        {
            let ghost pre = devs@.subrange(0, i as int);
            let ghost nxt = devs@.subrange(0, i + 1);
            let st = devs[i].status;
            let label = st.label();
            let c: usize = match t.get(label.as_str()) {
                Some(c) => *c,
                None => 0,
            };
            proof {
                assert(nxt.drop_last() =~= pre);
                assert(nxt.last().status == st);
                lemma_count_status_bound(pre, st);
                assert(c == count_status(pre, st));
            }
            let ghost before = t@;
            t.insert(label, c + 1);
            proof {
                assert forall|s: DeviceStatus| #[trigger]
                    t@.contains_key(status_label(s)) == (count_status(nxt, s) > 0)
                    && (t@.contains_key(status_label(s)) ==> t@[status_label(s)] == count_status(nxt, s)) by {
                    lemma_status_label_injective(s, st);
                }
                assert forall|name: Seq<char>| #[trigger]
                    t@.contains_key(name) implies exists|s: DeviceStatus| status_label(s) == name by {
                    if name != status_label(st) {
                        assert(before.contains_key(name));
                    }
                }
            }
            i = i + 1;
        }
        assert(devs@.subrange(0, devs@.len() as int) =~= devs@);
        t
    }

    /// The session identifier of the connected device with the given sysfs
    /// path, if there is one.
    pub fn find_by_sysfs_path(&self, sysfs_path: &str) -> (r: Option<u128>)
        ensures
            match r {
                Some(k) => self.device_map().contains_key(k) && self.device_map()[k].sysfs_path@
                    == sysfs_path@,
                None => forall|k: u128|
                    self.device_map().contains_key(k) ==> self.device_map()[k].sysfs_path@
                        != sysfs_path@,
            },
    {
        let iter = self.devices.iter();
        let ghost v = iter.remaining();
        assert(v == spec_hash_map_iter(&self.devices).remaining());
        for (k, d) in it: iter
            invariant
                it.seq() == v,
                v == spec_hash_map_iter(&self.devices).remaining(),
                forall|i: int|
                    0 <= i < it.index() ==> (#[trigger] it.seq()[i]).1.sysfs_path@ != sysfs_path@,
        {
            let ghost i = it.index();
            assert(v[i] == (k, d));
            assert(self.devices@.contains_key(*v[i].0));
            assert(self.devices@.contains_key(*k) && self.devices@[*k] == *d);
            if str_eq(d.sysfs_path.as_str(), sysfs_path) {
                return Some(*k);
            }
        }
        proof {
            assert forall|k: u128|
                self.device_map().contains_key(k) implies self.device_map()[k].sysfs_path@
                != sysfs_path@ by {
                assert(v.contains((&k, &self.devices@[k])));
                let i = choose|i: int| 0 <= i < v.len() && v[i] == (&k, &self.devices@[k]);
                assert(v[i].1.sysfs_path@ != sysfs_path@);
            }
        }
        None
    }
}

} // verus!
