//! Physical topology geo-fencing: which port locations, and which device
//! classes on them, may mount devices.
use crate::config::GeofenceRule;
use crate::device::{location_name, PortLocation, UsbDevice};
use crate::parse::{parse_unsigned, parse_unsigned_in};
use crate::table::NamedTable;
use crate::text::{chars_of, hex_fixed_upper, push_hex_fixed, push_str};
use vstd::prelude::*;
use vstd::string::*;

verus! {

/// The position of the only `-` in `s`, if `s` holds exactly one.
pub open spec fn single_dash(s: Seq<char>) -> Option<int> {
    if exists|p: int|
        0 <= p < s.len() && s[p] == '-' && (forall|q: int|
            0 <= q < s.len() && #[trigger] s[q] == '-' ==> q == p)
    {
        Some(
            choose|p: int|
                0 <= p < s.len() && s[p] == '-' && (forall|q: int|
                    0 <= q < s.len() && #[trigger] s[q] == '-' ==> q == p),
        )
    } else {
        None
    }
}

/// Whether a bus number (as text) parses and is above 2, the highest bus
/// that carries rear ports.
pub open spec fn bus_above_rear(bus: Seq<char>) -> bool {
    match parse_unsigned(bus, 10, 0xffff_ffff) {
        Some(b) => b > 2,
        None => false,
    }
}

/// The location of a port, from its topology path:
/// - an empty path is `Unknown`;
/// - a path through a hub (it holds a `.`) is `Hub`;
/// - a path `bus-port` (exactly one `-`) whose port number parses as a
///   `u32` is `FrontPanel` on a bus numbered above 2; on the other buses
///   (1 and 2, where motherboards put their rear ports) it is `RearIO` for
///   ports 1 to 4 (and 0) and `FrontPanel` above;
/// - anything else is `Unknown`.
pub open spec fn port_location(path: Seq<char>) -> PortLocation {
    if path.len() == 0 {
        PortLocation::Unknown
    } else if path.contains('.') {
        PortLocation::Hub
    } else {
        match single_dash(path) {
            Some(p) => match parse_unsigned(path.subrange(p + 1, path.len() as int), 10, 0xffff_ffff) {
                Some(n) => if bus_above_rear(path.subrange(0, p)) {
                    PortLocation::FrontPanel
                } else if n <= 4 {
                    PortLocation::RearIO
                } else {
                    PortLocation::FrontPanel
                },
                None => PortLocation::Unknown,
            },
            None => PortLocation::Unknown,
        }
    }
}

/// The first rule, in table order, that applies to `location`.
pub open spec fn first_rule(rules: Seq<GeofenceRule>, location: PortLocation) -> Option<
    GeofenceRule,
>
    decreases rules.len(),
{
    if rules.len() == 0 {
        None
    } else if rules[0].location == location {
        Some(rules[0])
    } else {
        first_rule(rules.drop_first(), location)
    }
}

/// The rules of a rule table, in table order.
pub open spec fn rule_list(t: NamedTable<GeofenceRule>) -> Seq<GeofenceRule> {
    t.pairs().map_values(|p: (Seq<char>, GeofenceRule)| p.1)
}

/// The reason given when a location is blocked.
pub open spec fn blocked_reason(port_path: Seq<char>, location: PortLocation) -> Seq<char> {
    "Port "@ + port_path + " ("@ + location_name(location) + ") is blocked by geo-fence policy"@
}

/// The reason given when a device class is not permitted on a location.
pub open spec fn class_reason(class: u8, location: PortLocation) -> Seq<char> {
    "Device class 0x"@ + hex_fixed_upper(class as nat, 2) + " not permitted on "@
        + location_name(location) + " ports"@
}

/// The geo-fence verdict on a device with the given port path and class:
/// the first rule for the port's location decides; with no such rule the
/// device is allowed.
pub open spec fn geofence_verdict(
    rules: Seq<GeofenceRule>,
    port_path: Seq<char>,
    class: u8,
) -> GeofenceVerdict {
    let location = port_location(port_path);
    match first_rule(rules, location) {
        Some(rule) => if !rule.allowed {
            GeofenceVerdict {
                allowed: false,
                location,
                reason: blocked_reason(port_path, location),
            }
        } else if rule.allowed_classes is Some && !rule.allowed_classes->0@.contains(class) {
            GeofenceVerdict { allowed: false, location, reason: class_reason(class, location) }
        } else {
            GeofenceVerdict {
                allowed: true,
                location,
                reason: "Permitted by geo-fence policy"@,
            }
        },
        None => GeofenceVerdict {
            allowed: true,
            location,
            reason: "No geo-fence rule for this port location — default allow"@,
        },
    }
}

/// How the geo-fence decides: the rule that counts is the earliest rule for
/// the port's location; without one the device is allowed; with one, the
/// device is allowed exactly when the rule allows the location and either
/// lists no classes or lists the device's class at some position.
/// (`GeofenceEngine::check_device` gives this verdict.)
pub proof fn law_geofence_decision(rules: Seq<GeofenceRule>, path: Seq<char>, class: u8)
    ensures
        ({
            let loc = port_location(path);
            let v = geofence_verdict(rules, path, class);
            &&& v.location == loc
            &&& match first_rule(rules, loc) {
                Some(r) => {
                    &&& exists|i: int|
                        0 <= i < rules.len() && rules[i] == r && rules[i].location == loc && forall|
                            j: int,
                        | 0 <= j < i ==> (#[trigger] rules[j]).location != loc
                    &&& v.allowed == (r.allowed && match r.allowed_classes {
                        Some(cs) => exists|k: int| 0 <= k < cs@.len() && cs@[k] == class,
                        None => true,
                    })
                },
                None => {
                    &&& forall|j: int| 0 <= j < rules.len() ==> (#[trigger] rules[j]).location != loc
                    &&& v.allowed
                },
            }
        }),
{
    lemma_first_rule_is_earliest(rules, port_location(path));
    match first_rule(rules, port_location(path)) {
        Some(r) => {
            if let Some(cs) = r.allowed_classes {
                if cs@.contains(class) {
                    let k = choose|k: int| 0 <= k < cs@.len() && cs@[k] == class;
                }
            }
        },
        None => {},
    }
}

proof fn lemma_first_rule_is_earliest(rules: Seq<GeofenceRule>, loc: PortLocation)
    ensures
        match first_rule(rules, loc) {
            Some(r) => exists|i: int|
                0 <= i < rules.len() && rules[i] == r && rules[i].location == loc && forall|j: int|
                    0 <= j < i ==> (#[trigger] rules[j]).location != loc,
            None => forall|j: int| 0 <= j < rules.len() ==> (#[trigger] rules[j]).location != loc,
        },
    decreases rules.len(),
{
    if rules.len() > 0 {
        let rest = rules.drop_first();
        lemma_first_rule_is_earliest(rest, loc);
        if rules[0].location != loc {
            match first_rule(rest, loc) {
                Some(r) => {
                    let i = choose|i: int|
                        0 <= i < rest.len() && rest[i] == r && rest[i].location == loc && forall|
                            j: int,
                        | 0 <= j < i ==> (#[trigger] rest[j]).location != loc;
                    assert(rules[i + 1] == rest[i]);
                    assert forall|j: int| 0 <= j < i + 1 implies (#[trigger] rules[j]).location
                        != loc by {
                        if j > 0 {
                            assert(rules[j] == rest[j - 1]);
                        }
                    }
                },
                None => {
                    assert forall|j: int| 0 <= j < rules.len() implies (#[trigger] rules[
                        j
                    ]).location != loc by {
                        if j > 0 {
                            assert(rules[j] == rest[j - 1]);
                        }
                    }
                },
            }
        }
    }
}

/// The mathematical content of a geo-fence result.
pub struct GeofenceVerdict {
    pub allowed: bool,
    pub location: PortLocation,
    pub reason: Seq<char>,
}

/// Result of a geo-fence check.
pub struct GeofenceResult {
    /// Whether the device may be mounted.
    pub allowed: bool,
    /// The location of the port the device is on.
    pub location: PortLocation,
    /// Why.
    pub reason: String,
}

impl GeofenceResult {
    /// The verdict that the result carries.
    pub open spec fn verdict(self) -> GeofenceVerdict {
        GeofenceVerdict { allowed: self.allowed, location: self.location, reason: self.reason@ }
    }
}

/// Physical topology geo-fencing engine.
pub struct GeofenceEngine {
    rules: NamedTable<GeofenceRule>,
}

/// Whether `v` holds `x`.
fn contains_u8(v: &Vec<u8>, x: u8) -> (r: bool)
    ensures
        r == v@.contains(x),
{
    let mut i: usize = 0;
    while i < v.len()
        invariant
            i <= v@.len(),
            forall|j: int| 0 <= j < i ==> v@[j] != x,
        decreases v@.len() - i,
    {
        if v[i] == x {
            return true;
        }
        i = i + 1;
    }
    false
}

impl GeofenceEngine {
    /// The rule table of the engine.
    pub closed spec fn table(self) -> NamedTable<GeofenceRule> {
        self.rules
    }

    /// An engine over the given rules.
    pub fn new(rules: NamedTable<GeofenceRule>) -> (e: Self)
        ensures
            e.table() == rules,
    {
        GeofenceEngine { rules }
    }

    /// The location of a port, from its topology path (see
    /// [`port_location`]).
    pub fn classify_port(port_path: &str) -> (l: PortLocation)
        ensures
            l == port_location(port_path@),
    {
        let cs = chars_of(port_path);
        let n = cs.len();
        if n == 0 {
            return PortLocation::Unknown;
        }
        // Look for a hub separator and count the dashes.
        let mut i: usize = 0;
        let mut dash: Option<usize> = None;
        let mut dashes: usize = 0;
        while i < n
            invariant
                n == cs@.len(),
                cs@ == port_path@,
                i <= n,
                forall|j: int| 0 <= j < i ==> cs@[j] != '.',
                dashes <= i,
                dashes == 0 ==> dash is None && forall|j: int| 0 <= j < i ==> cs@[j] != '-',
                dashes >= 1 ==> dash is Some && dash->0 < i && cs@[dash->0 as int] == '-',
                dashes == 1 ==> forall|j: int| 0 <= j < i && cs@[j] == '-' ==> j == dash->0,
                dashes >= 2 ==> exists|j: int| 0 <= j < i && cs@[j] == '-' && j != dash->0,
            decreases n - i,
        {
            if cs[i] == '.' {
                assert(cs@[i as int] == '.');
                return PortLocation::Hub;
            }
            if cs[i] == '-' {
                if dashes == 0 {
                    dash = Some(i);
                } else {
                    assert(cs@[i as int] == '-' && i != dash->0);
                }
                dashes = dashes + 1;
            }
            i = i + 1;
        }
        assert(!port_path@.contains('.'));
        if dashes != 1 {
            assert(single_dash(port_path@) is None) by {
                if exists|p: int|
                    0 <= p < cs@.len() && cs@[p] == '-' && (forall|q: int|
                        0 <= q < cs@.len() && #[trigger] cs@[q] == '-' ==> q == p)
                {
                    let p = choose|p: int|
                        0 <= p < cs@.len() && cs@[p] == '-' && (forall|q: int|
                            0 <= q < cs@.len() && #[trigger] cs@[q] == '-' ==> q == p);
                    if dashes >= 2 {
                        let j = choose|j: int| 0 <= j < n && cs@[j] == '-' && j != dash->0;
                        assert(cs@[dash->0 as int] == '-');
                    }
                }
            }
            return PortLocation::Unknown;
        }
        let p = match dash {
            Some(p) => p,
            None => {
                return PortLocation::Unknown;
            },
        };
        assert(single_dash(port_path@) == Some(p as int)) by {
            assert(cs@[p as int] == '-');
        }
        match parse_unsigned_in(&cs, p + 1, n, 10, 0xffff_ffff) {
            Some(v) => {
                let high_bus = match parse_unsigned_in(&cs, 0, p, 10, 0xffff_ffff) {
                    Some(b) => b > 2,
                    None => false,
                };
                if high_bus {
                    PortLocation::FrontPanel
                } else if v <= 4 {
                    PortLocation::RearIO
                } else {
                    PortLocation::FrontPanel
                }
            },
            None => PortLocation::Unknown,
        }
    }

    /// Whether `device` may be mounted at its port: the first rule, in
    /// table order, for the port's location decides (a rule that forbids the
    /// location, or one whose class list lacks the device class, blocks it);
    /// with no rule for the location the device is allowed.
    pub fn check_device(&self, device: &UsbDevice) -> (r: GeofenceResult)
        ensures
            r.verdict() == geofence_verdict(
                rule_list(self.table()),
                device.port_path@,
                device.device_class,
            ),
    {
        let location = Self::classify_port(device.port_path.as_str());
        let n = self.rules.len();
        let ghost all = rule_list(self.rules);
        let mut i: usize = 0;
        assert(all.subrange(0, n as int) =~= all);
        while i < n
            invariant
                n == self.rules.pairs().len(),
                all == rule_list(self.rules),
                all.len() == n,
                location == port_location(device.port_path@),
                i <= n,
                first_rule(all, location) == first_rule(all.subrange(i as int, n as int), location),
            decreases n - i,
        {
            let rule = self.rules.value_at(i);
            let ghost rest = all.subrange(i as int, n as int);
            assert(all[i as int] == self.rules.pairs()[i as int].1);
            assert(rest[0] == *rule);
            assert(rest.drop_first() =~= all.subrange(i + 1, n as int));
            if rule.location == location {
                assert(first_rule(all, location) == Some(*rule));
                if !rule.allowed {
                    let mut reason = String::from_str("Port ");
                    push_str(&mut reason, device.port_path.as_str());
                    push_str(&mut reason, " (");
                    push_str(&mut reason, location.name().as_str());
                    push_str(&mut reason, ") is blocked by geo-fence policy");
                    assert(reason@ =~= blocked_reason(device.port_path@, location));
                    return GeofenceResult { allowed: false, location, reason };
                }
                match &rule.allowed_classes {
                    Some(classes) => {
                        if !contains_u8(classes, device.device_class) {
                            let mut reason = String::from_str("Device class 0x");
                            push_hex_fixed(&mut reason, device.device_class as u64, 2, true);
                            push_str(&mut reason, " not permitted on ");
                            push_str(&mut reason, location.name().as_str());
                            push_str(&mut reason, " ports");
                            assert(reason@ =~= class_reason(device.device_class, location));
                            return GeofenceResult { allowed: false, location, reason };
                        }
                    },
                    None => {},
                }
                return GeofenceResult {
                    allowed: true,
                    location,
                    reason: String::from_str("Permitted by geo-fence policy"),
                };
            }
            i = i + 1;
        }
        assert(all.subrange(n as int, n as int).len() == 0);
        GeofenceResult {
            allowed: true,
            location,
            reason: String::from_str("No geo-fence rule for this port location — default allow"),
        }
    }
}

} // verus!
