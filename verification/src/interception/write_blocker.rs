//! The software write blocker: the kernel's per-device read-only flag in
//! `/sys/block/{device}/ro` ("1" read-only, "0" read-write).
use crate::text::{chars_eq, str_eq, trim};
use crate::text::{push_str, trimmed};
use vstd::prelude::*;
use vstd::string::*;

verus! {

/// The prefix of device node paths.
pub open spec fn dev_prefix() -> Seq<char> {
    "/dev/"@
}

/// The device name of a device node path: what follows `/dev/`, when the
/// path starts with it.
pub open spec fn name_from_dev_path(p: Seq<char>) -> Option<Seq<char>> {
    if p.len() >= 5 && p.subrange(0, 5) == dev_prefix() {
        Some(p.subrange(5, p.len() as int))
    } else {
        None
    }
}

/// Extracts the device name from a full `/dev/` path:
/// "/dev/sdb" gives "sdb", "/dev/sdc1" gives "sdc1", and a path that does
/// not start with "/dev/" gives `None`.
pub fn device_name_from_path(dev_path: &str) -> (r: Option<&str>)
    ensures
        match name_from_dev_path(dev_path@) {
            Some(n) => r matches Some(s) && s@ == n,
            None => r is None,
        },
{
    let n = dev_path.unicode_len();
    if n < 5 {
        return None;
    }
    let head = dev_path.substring_char(0, 5);
    if !str_eq(head, "/dev/") {
        return None;
    }
    Some(dev_path.substring_char(5, n))
}

/// The sysfs path of the read-only flag of a block device.
pub open spec fn ro_flag_path_spec(device_name: Seq<char>) -> Seq<char> {
    "/sys/block/"@ + device_name + "/ro"@
}

/// The sysfs path of the read-only flag of a block device,
/// `/sys/block/{device_name}/ro`.
pub fn ro_flag_path(device_name: &str) -> (r: String)
    ensures
        r@ == ro_flag_path_spec(device_name@),
{
    let mut s = String::from_str("/sys/block/");
    push_str(&mut s, device_name);
    push_str(&mut s, "/ro");
    s
}

/// Whether the contents of a read-only flag file say "read-only": the
/// text, without surrounding whitespace, is exactly "1".
pub fn ro_flag_set(content: &str) -> (r: bool)
    ensures
        r == (trimmed(content@) == "1"@),
{
    let t = trim(content);
    chars_eq(&t, "1")
}

} // verus!
