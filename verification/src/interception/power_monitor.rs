//! Port power state: reading it from the sysfs `power/` attributes, and the
//! `authorized` attribute that cuts or restores a port's power.
use crate::parse::{all_digits, digits_value, parse_unsigned, parse_unsigned_in};
use crate::text::{push_str, string_from_chars, trim, trimmed};
use vstd::prelude::*;
use vstd::string::*;

verus! {

/// USB port power state.
pub struct PortPowerStatus {
    /// Port path identifier.
    pub port_path: String,
    /// Whether the port is currently powered.
    pub powered: bool,
    /// Auto-suspend enabled.
    pub autosuspend: bool,
    /// Power level ("on", "auto", "suspend").
    pub level: String,
}

/// Whether a text parses as a non-negative `i32` (as `str::parse::<i32>`
/// reads it): either an unsigned number up to `i32::MAX` with an optional
/// `+`, or `-` followed by digits whose value is zero.
pub open spec fn parses_as_nonneg_i32(t: Seq<char>) -> bool {
    if t.len() > 0 && t[0] == '-' {
        let rest = t.drop_first();
        rest.len() > 0 && all_digits(rest, 10) && digits_value(rest, 10) == 0
    } else {
        parse_unsigned(t, 10, 0x7fff_ffff) is Some
    }
}

/// The characters of an optional string slice.
pub open spec fn opt_chars(o: Option<&str>) -> Option<Seq<char>> {
    match o {
        Some(s) => Some(s@),
        None => None,
    }
}

/// The power level text: the `power/level` contents without surrounding
/// whitespace, or "unknown" when the file could not be read.
pub open spec fn level_text(level_file: Option<Seq<char>>) -> Seq<char> {
    match level_file {
        Some(c) => trimmed(c),
        None => "unknown"@,
    }
}

/// Whether auto-suspend is enabled: the `power/autosuspend` contents, without
/// surrounding whitespace, parse as a non-negative `i32` (an unreadable
/// file counts as -1).
pub open spec fn autosuspend_on(autosuspend_file: Option<Seq<char>>) -> bool {
    match autosuspend_file {
        Some(c) => parses_as_nonneg_i32(trimmed(c)),
        None => false,
    }
}

/// Whether a text, already trimmed, parses as a non-negative `i32`.
fn nonneg_i32(t: &Vec<char>) -> (r: bool)
    ensures
        r == parses_as_nonneg_i32(t@),
{
    let n = t.len();
    if n > 0 && t[0] == '-' {
        let ghost rest = t@.drop_first();
        assert(rest =~= t@.subrange(1, n as int));
        if n == 1 {
            return false;
        }
        if t[1] == '+' {
            assert(!all_digits(rest, 10)) by {
                assert(rest[0] == '+');
            }
            return false;
        }
        let v = parse_unsigned_in(t, 1, n, 10, 0x8000_0000);
        match v {
            Some(x) => x == 0,
            None => {
                assert(!(rest.len() > 0 && all_digits(rest, 10) && digits_value(rest, 10) == 0));
                false
            },
        }
    } else {
        assert(t@.subrange(0, n as int) =~= t@);
        parse_unsigned_in(t, 0, n, 10, 0x7fff_ffff).is_some()
    }
}

/// The power state of the port at `sysfs_path`, from the contents of its
/// `power/level` and `power/autosuspend` files (`None` for a file that
/// could not be read): the level is the trimmed text ("unknown" when
/// unreadable), the port counts as powered unless the level is "suspend",
/// and auto-suspend is on when the delay is a non-negative number.
pub fn read_port_power(sysfs_path: &str, level_file: Option<&str>, autosuspend_file: Option<&str>) -> (r:
    PortPowerStatus)
    ensures
        r.port_path@ == sysfs_path@,
        r.level@ == level_text(opt_chars(level_file)),
        r.powered == (r.level@ != "suspend"@),
        r.autosuspend == autosuspend_on(opt_chars(autosuspend_file)),
{
    let level = match level_file {
        Some(c) => string_from_chars(&trim(c)),
        None => String::from_str("unknown"),
    };
    let autosuspend = match autosuspend_file {
        Some(c) => nonneg_i32(&trim(c)),
        None => false,
    };
    let powered = !str_eq_string(&level, "suspend");
    PortPowerStatus { port_path: sysfs_path.to_owned(), powered, autosuspend, level }
}

/// Whether a string holds exactly the characters of `lit`.
fn str_eq_string(s: &String, lit: &str) -> (r: bool)
    ensures
        r == (s@ == lit@),
{
    crate::text::str_eq(s.as_str(), lit)
}

/// The sysfs `authorized` attribute of the port at `sysfs_path`, written
/// "0" to cut the port's power and "1" to restore it.
pub fn authorized_attr_path(sysfs_path: &str) -> (r: String)
    ensures
        r@ == sysfs_path@ + "/authorized"@,
{
    let mut s = String::from_str(sysfs_path);
    push_str(&mut s, "/authorized");
    s
}

} // verus!
