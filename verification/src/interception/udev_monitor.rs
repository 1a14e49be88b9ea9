//! USB devices as sysfs describes them: the attribute files of a device
//! directory under `/sys/bus/usb/devices`, and the device entry built from
//! them.
use crate::device::UsbDevice;
use crate::parse::{parse_unsigned, parse_unsigned_in};
use crate::text::{chars_of, push_str, str_eq, string_from_chars, trim, trimmed};
use vstd::prelude::*;
use vstd::string::*;

verus! {

/// The value of a hexadecimal attribute: the file contents without
/// surrounding whitespace, read as a `u16` in base 16.
pub open spec fn hex_attr_value(content: Seq<char>) -> Option<nat> {
    parse_unsigned(trimmed(content), 16, 0xffff)
}

/// The value of a decimal attribute: the file contents without surrounding
/// whitespace, read as a `u32`.
pub open spec fn decimal_attr_value(content: Seq<char>) -> Option<nat> {
    parse_unsigned(trimmed(content), 10, 0xffff_ffff)
}

/// The value of a text attribute: the contents without surrounding
/// whitespace, absent when nothing is left.
pub open spec fn string_attr_value(content: Seq<char>) -> Option<Seq<char>> {
    if trimmed(content).len() == 0 {
        None
    } else {
        Some(trimmed(content))
    }
}

/// Reads a hexadecimal attribute (e.g. `idVendor`).
pub fn read_hex_attr(content: &str) -> (r: Option<u16>)
    ensures
        match hex_attr_value(content@) {
            Some(v) => r == Some(v as u16),
            None => r is None,
        },
{
    let t = trim(content);
    assert(t@.subrange(0, t@.len() as int) =~= t@);
    match parse_unsigned_in(&t, 0, t.len(), 16, 0xffff) {
        Some(v) => Some(v as u16),
        None => None,
    }
}

/// Reads a decimal attribute (e.g. `busnum`).
pub fn read_decimal_attr(content: &str) -> (r: Option<u32>)
    ensures
        match decimal_attr_value(content@) {
            Some(v) => r == Some(v as u32),
            None => r is None,
        },
{
    let t = trim(content);
    assert(t@.subrange(0, t@.len() as int) =~= t@);
    match parse_unsigned_in(&t, 0, t.len(), 10, 0xffff_ffff) {
        Some(v) => Some(v as u32),
        None => None,
    }
}

/// Reads a text attribute (e.g. `serial`).
pub fn read_string_attr(content: &str) -> (r: Option<String>)
    ensures
        match string_attr_value(content@) {
            Some(v) => r matches Some(s) && s@ == v,
            None => r is None,
        },
{
    let t = trim(content);
    if t.len() == 0 {
        None
    } else {
        Some(string_from_chars(&t))
    }
}

/// A text attribute read from an optional file.
pub open spec fn opt_string_attr(content: Option<String>) -> Option<Seq<char>> {
    match content {
        Some(c) => string_attr_value(c@),
        None => None,
    }
}

/// A hexadecimal attribute read from an optional file, 0 when missing or
/// unreadable.
pub open spec fn opt_hex_attr(content: Option<String>) -> nat {
    match content {
        Some(c) => match hex_attr_value(c@) {
            Some(v) => v,
            None => 0,
        },
        None => 0,
    }
}

/// A decimal attribute read from an optional file, 0 when missing or
/// unreadable.
pub open spec fn opt_decimal_attr(content: Option<String>) -> nat {
    match content {
        Some(c) => match decimal_attr_value(c@) {
            Some(v) => v,
            None => 0,
        },
        None => 0,
    }
}

fn hex_or_zero(content: &Option<String>) -> (r: u16)
    ensures
        r == opt_hex_attr(*content),
{
    match content {
        Some(c) => match read_hex_attr(c.as_str()) {
            Some(v) => v,
            None => 0,
        },
        None => 0,
    }
}

fn decimal_or_zero(content: &Option<String>) -> (r: u32)
    ensures
        r == opt_decimal_attr(*content),
{
    match content {
        Some(c) => match read_decimal_attr(c.as_str()) {
            Some(v) => v,
            None => 0,
        },
        None => 0,
    }
}

fn string_or_none(content: &Option<String>) -> (r: Option<String>)
    ensures
        match opt_string_attr(*content) {
            Some(v) => r matches Some(s) && s@ == v,
            None => r is None,
        },
{
    match content {
        Some(c) => read_string_attr(c.as_str()),
        None => None,
    }
}

/// What a device directory in sysfs holds. A file that is missing or could
/// not be read is `None`.
pub struct SysfsDeviceAttrs {
    /// The name of the directory (e.g. "1-2.3"); `None` when the path has
    /// no final component.
    pub name: Option<String>,
    /// The full sysfs path of the directory.
    pub path: String,
    /// Whether the `idVendor` file exists.
    pub has_id_vendor: bool,
    /// Whether the `idProduct` file exists.
    pub has_id_product: bool,
    pub id_vendor: Option<String>,
    pub id_product: Option<String>,
    pub removable: Option<String>,
    pub busnum: Option<String>,
    pub devnum: Option<String>,
    pub serial: Option<String>,
    pub manufacturer: Option<String>,
    pub product: Option<String>,
    pub version: Option<String>,
    pub device_class: Option<String>,
    pub device_subclass: Option<String>,
    /// Contents of the `bInterfaceClass` files of the interface
    /// subdirectories that have one.
    pub interface_classes: Vec<Option<String>>,
    /// Name of the first block device found below the device, if any.
    pub block_device_name: Option<String>,
}

/// Whether one of the interfaces is a HID interface (class 0x03).
pub open spec fn has_hid_interface_spec(classes: Seq<Option<String>>) -> bool {
    exists|i: int|
        0 <= i < classes.len() && (#[trigger] classes[i]) is Some && hex_attr_value(
            classes[i]->0@,
        ) == Some(3nat)
}

/// A device has a HID interface exactly when one of its interfaces, at any
/// position (the first one included), has a `bInterfaceClass` that reads as
/// 0x03: no interfaces means none, and adding an interface in front of or
/// behind the others adds its own answer. (`check_for_hid_interface` and
/// `parse_usb_device` report this.)
pub proof fn law_hid_interface_at_any_position(
    classes: Seq<Option<String>>,
    c: Option<String>,
    i: int,
)
    ensures
        !has_hid_interface_spec(Seq::empty()),
        0 <= i < classes.len() && classes[i] is Some && hex_attr_value(classes[i]->0@) == Some(
            3nat,
        ) ==> has_hid_interface_spec(classes),
        has_hid_interface_spec(seq![c] + classes) == ((c is Some && hex_attr_value(c->0@) == Some(
            3nat,
        )) || has_hid_interface_spec(classes)),
        has_hid_interface_spec(classes.push(c)) == ((c is Some && hex_attr_value(c->0@) == Some(
            3nat,
        )) || has_hid_interface_spec(classes)),
{
    let front = seq![c] + classes;
    let back = classes.push(c);
    if 0 <= i < classes.len() && classes[i] is Some && hex_attr_value(classes[i]->0@) == Some(3nat) {
        assert(classes[i] == classes[i]);
    }
    if has_hid_interface_spec(classes) {
        let j = choose|j: int|
            0 <= j < classes.len() && (#[trigger] classes[j]) is Some && hex_attr_value(
                classes[j]->0@,
            ) == Some(3nat);
        assert(front[j + 1] == classes[j]);
        assert(back[j] == classes[j]);
    }
    if c is Some && hex_attr_value(c->0@) == Some(3nat) {
        assert(front[0] == c);
        assert(back[classes.len() as int] == c);
    }
    if has_hid_interface_spec(front) {
        let j = choose|j: int|
            0 <= j < front.len() && (#[trigger] front[j]) is Some && hex_attr_value(
                front[j]->0@,
            ) == Some(3nat);
        if j > 0 {
            assert(classes[j - 1] == front[j]);
        }
    }
    if has_hid_interface_spec(back) {
        let j = choose|j: int|
            0 <= j < back.len() && (#[trigger] back[j]) is Some && hex_attr_value(
                back[j]->0@,
            ) == Some(3nat);
        if j < classes.len() {
            assert(classes[j] == back[j]);
        }
    }
}

/// Whether one of the interfaces is a HID interface (class 0x03).
pub fn check_for_hid_interface(classes: &Vec<Option<String>>) -> (r: bool)
    ensures
        r == has_hid_interface_spec(classes@),
{
    let mut i: usize = 0;
    while i < classes.len()
        invariant
            i <= classes@.len(),
            forall|j: int|
                0 <= j < i ==> !((#[trigger] classes@[j]) is Some && hex_attr_value(
                    classes@[j]->0@,
                ) == Some(3nat)),
        decreases classes@.len() - i,
    {
        match &classes[i] {
            Some(c) => {
                if let Some(v) = read_hex_attr(c.as_str()) {
                    if v == 3 {
                        return true;
                    }
                }
            },
            None => {},
        }
        i = i + 1;
    }
    false
}

/// Whether the device directory describes a removable USB device that the
/// daemon tracks: it has `idVendor` and `idProduct` files, their values are
/// not both zero, it is not marked `fixed`, and the directory has a name.
pub open spec fn is_tracked_device(a: SysfsDeviceAttrs) -> bool {
    &&& a.has_id_vendor && a.has_id_product
    &&& !(opt_hex_attr(a.id_vendor) == 0 && opt_hex_attr(a.id_product) == 0)
    &&& opt_string_attr(a.removable) != Some("fixed"@)
    &&& a.name is Some
}

/// The device entry for a sysfs device directory, or `None` when the
/// directory does not describe a tracked device (see
/// [`is_tracked_device`]). Numbers that do not fit are cut to their low
/// bits, as an `as` cast does.
pub fn parse_usb_device(a: &SysfsDeviceAttrs) -> (r: Option<UsbDevice>)
    ensures
        is_tracked_device(*a) <==> r is Some,
        r matches Some(d) ==> {
            &&& d.vendor_id == opt_hex_attr(a.id_vendor)
            &&& d.product_id == opt_hex_attr(a.id_product)
            &&& d.port_path == a.name->0
            &&& d.bus_number == opt_decimal_attr(a.busnum) % 256
            &&& d.device_number == opt_decimal_attr(a.devnum) % 256
            &&& d.sysfs_path == a.path
            &&& opt_chars_of(d.serial_number) == opt_string_attr(a.serial)
            &&& opt_chars_of(d.manufacturer) == opt_string_attr(a.manufacturer)
            &&& opt_chars_of(d.product_name) == opt_string_attr(a.product)
            &&& opt_chars_of(d.revision) == opt_string_attr(a.version)
            &&& d.device_class == opt_hex_attr(a.device_class) % 256
            &&& d.device_subclass == opt_hex_attr(a.device_subclass) % 256
            &&& d.has_hid_interface == has_hid_interface_spec(a.interface_classes@)
            &&& match a.block_device_name {
                Some(n) => d.block_device matches Some(b) && b@ == "/dev/"@ + n@,
                None => d.block_device is None,
            }
            &&& d.status == crate::device::DeviceStatus::Pending
            &&& d.trust_score == 0
            &&& d.passport_hash is None
            &&& d.analysis_results@.len() == 0
        },
{
    if !a.has_id_vendor || !a.has_id_product {
        return None;
    }
    let vid = hex_or_zero(&a.id_vendor);
    let pid = hex_or_zero(&a.id_product);
    if vid == 0 && pid == 0 {
        return None;
    }
    let removable = string_or_none(&a.removable);
    if let Some(r) = &removable {
        if str_eq(r.as_str(), "fixed") {
            return None;
        }
    }
    let bus_num = (decimal_or_zero(&a.busnum) % 256) as u8;
    let dev_num = (decimal_or_zero(&a.devnum) % 256) as u8;
    let name = match &a.name {
        Some(n) => n.clone(),
        None => {
            return None;
        },
    };
    let mut device = UsbDevice::new(vid, pid, name, bus_num, dev_num, a.path.clone());
    device.serial_number = string_or_none(&a.serial);
    device.manufacturer = string_or_none(&a.manufacturer);
    device.product_name = string_or_none(&a.product);
    device.revision = string_or_none(&a.version);
    device.device_class = (hex_or_zero(&a.device_class) % 256) as u8;
    device.device_subclass = (hex_or_zero(&a.device_subclass) % 256) as u8;
    device.has_hid_interface = check_for_hid_interface(&a.interface_classes);
    device.block_device = match &a.block_device_name {
        Some(n) => {
            let mut p = String::from_str("/dev/");
            push_str(&mut p, n.as_str());
            Some(p)
        },
        None => None,
    };
    Some(device)
}

/// The characters of an optional string.
pub open spec fn opt_chars_of(o: Option<String>) -> Option<Seq<char>> {
    match o {
        Some(s) => Some(s@),
        None => None,
    }
}

/// Whether an entry of `/sys/bus/usb/devices` is a root hub (its name
/// starts with "usb"), which enumeration skips.
pub fn is_root_hub_entry(name: &str) -> (r: bool)
    ensures
        r == (name@.len() >= 3 && name@.subrange(0, 3) == "usb"@),
{
    let cs = chars_of(name);
    if cs.len() < 3 {
        return false;
    }
    let head = vec![cs[0], cs[1], cs[2]];
    assert(head@ =~= name@.subrange(0, 3));
    crate::text::chars_eq(&head, "usb")
}

} // verus!
