//! HID spoof detection: mass-storage devices that also expose a keyboard
//! (HID) interface, the hallmark of BadUSB attacks.
use crate::device::{vid_pid, UsbDevice};
use crate::text::{decimal, push_decimal, push_str};
use vstd::prelude::*;
use vstd::string::*;

verus! {

/// USB interface class code of a Human Interface Device.
pub const USB_CLASS_HID: u8 = 0x03;

/// USB interface class code of a mass-storage device.
pub const USB_CLASS_MASS_STORAGE: u8 = 0x08;

/// Whether a set of interface classes holds both a HID and a mass-storage
/// interface.
pub fn is_spoof_combination(interface_classes: &[u8]) -> (r: bool)
    ensures
        r == (interface_classes@.contains(USB_CLASS_HID) && interface_classes@.contains(
            USB_CLASS_MASS_STORAGE,
        )),
{
    let mut has_hid = false;
    let mut has_storage = false;
    let mut i: usize = 0;
    while i < interface_classes.len()
        invariant
            i <= interface_classes.len(),
            has_hid == (exists|j: int| 0 <= j < i && interface_classes@[j] == USB_CLASS_HID),
            has_storage == (exists|j: int|
                0 <= j < i && interface_classes@[j] == USB_CLASS_MASS_STORAGE),
        decreases interface_classes.len() - i,
    {
        if interface_classes[i] == USB_CLASS_HID {
            has_hid = true;
        }
        if interface_classes[i] == USB_CLASS_MASS_STORAGE {
            has_storage = true;
        }
        i = i + 1;
    }
    has_hid && has_storage
}

/// A mass-storage device that exposes a HID interface.
pub open spec fn storage_with_hid(d: UsbDevice) -> bool {
    d.has_hid_interface && d.device_class == USB_CLASS_MASS_STORAGE
}

/// A HID device that has a block device.
pub open spec fn hid_with_block(d: UsbDevice) -> bool {
    d.device_class == USB_CLASS_HID && d.block_device is Some
}

/// A composite device (class 0) with both a HID interface and a block
/// device.
pub open spec fn composite_hid_storage(d: UsbDevice) -> bool {
    d.device_class == 0 && d.has_hid_interface && d.block_device is Some
}

/// The indicator texts of a device, in check order.
pub open spec fn hid_indicators(d: UsbDevice) -> Seq<Seq<char>> {
    (if storage_with_hid(d) {
        seq!["Mass-storage device exposes HID (keyboard) interface — possible BadUSB"@]
    } else {
        Seq::empty()
    }) + (if hid_with_block(d) {
        seq!["HID device has block device path — abnormal configuration"@]
    } else {
        Seq::empty()
    }) + (if composite_hid_storage(d) {
        seq!["Composite device with both HID and mass-storage interfaces — suspicious"@]
    } else {
        Seq::empty()
    })
}

/// The severity: 9 for storage with HID, else 8 for HID with a block
/// device, else 7 for a suspicious composite device, else 0.
pub open spec fn hid_severity(d: UsbDevice) -> u8 {
    if storage_with_hid(d) {
        9
    } else if hid_with_block(d) {
        8
    } else if composite_hid_storage(d) {
        7
    } else {
        0
    }
}

/// The summary line of the check.
pub open spec fn hid_summary(d: UsbDevice) -> Seq<char> {
    if hid_indicators(d).len() > 0 {
        "🚨 HID spoof detected on device "@ + vid_pid(d.vendor_id, d.product_id) + " — "@
            + decimal(hid_indicators(d).len()) + " indicator(s)"@
    } else {
        "✅ No HID spoof indicators on device "@ + vid_pid(d.vendor_id, d.product_id)
    }
}

/// The findings of the HID spoof check on one device.
pub struct HidSpoofReport {
    /// Whether any indicator was found.
    pub flagged: bool,
    /// Severity of the worst indicator (0 when clean).
    pub severity: u8,
    /// The indicators found, in check order.
    pub indicators: Vec<String>,
    /// Human-readable summary.
    pub summary: String,
}

/// The characters of each string of a list.
pub open spec fn string_views(v: Seq<String>) -> Seq<Seq<char>> {
    v.map_values(|s: String| s@)
}

/// What the HID spoof check finds, by the device's class, HID interface and
/// block device: a device without a block device is flagged only when it
/// is a mass-storage device (class 0x08) with a HID interface (severity 9);
/// a device without a HID interface is flagged only when it is a HID device
/// (class 0x03) with a block device (severity 8); a per-interface device
/// (class 0) is flagged, with severity 7, exactly when it has both; any other
/// class is never flagged. An unflagged device has severity 0 and no
/// indicator. (`check_hid_spoof` reports these indicators and severity.)
pub proof fn law_hid_spoof_findings(d: UsbDevice)
    ensures
        d.block_device is None ==> ((hid_indicators(d).len() > 0) == (d.device_class == 0x08
            && d.has_hid_interface)),
        d.block_device is None && d.device_class == 0x08 && d.has_hid_interface ==> hid_severity(d)
            == 9,
        !d.has_hid_interface ==> ((hid_indicators(d).len() > 0) == (d.device_class == 0x03
            && d.block_device is Some)),
        !d.has_hid_interface && d.device_class == 0x03 && d.block_device is Some ==> hid_severity(
            d,
        ) == 8,
        d.device_class == 0 ==> ((hid_indicators(d).len() > 0) == (d.has_hid_interface
            && d.block_device is Some)),
        d.device_class == 0 && d.has_hid_interface && d.block_device is Some ==> hid_severity(d)
            == 7 && hid_indicators(d).len() == 1,
        d.device_class != 0 && d.device_class != 0x03 && d.device_class != 0x08 ==> hid_indicators(
            d,
        ).len() == 0,
        (hid_indicators(d).len() == 0) == (hid_severity(d) == 0),
{
}

/// Checks a device for HID interface spoofing: a mass-storage device with a
/// HID interface (severity 9), a HID device with a block device (8), and a
/// composite device with both (7).
pub fn check_hid_spoof(device: &UsbDevice) -> (r: HidSpoofReport)
    ensures
        string_views(r.indicators@) == hid_indicators(*device),
        r.flagged == (hid_indicators(*device).len() > 0),
        r.severity == hid_severity(*device),
        r.summary@ == hid_summary(*device),
{
    let mut indicators: Vec<String> = Vec::new();
    let mut severity: u8 = 0;
    if device.has_hid_interface && device.device_class == USB_CLASS_MASS_STORAGE {
        indicators.push(
            String::from_str("Mass-storage device exposes HID (keyboard) interface — possible BadUSB"),
        );
        severity = 9;
    }
    if device.device_class == USB_CLASS_HID && device.block_device.is_some() {
        indicators.push(
            String::from_str("HID device has block device path — abnormal configuration"),
        );
        if severity < 8 {
            severity = 8;
        }
    }
    if device.device_class == 0x00 && device.has_hid_interface && device.block_device.is_some() {
        indicators.push(
            String::from_str(
                "Composite device with both HID and mass-storage interfaces — suspicious",
            ),
        );
        if severity < 7 {
            severity = 7;
        }
    }
    assert(string_views(indicators@) =~= hid_indicators(*device));
    let flagged = indicators.len() > 0;
    let vid_pid_text = device.vid_pid_string();
    let summary = if flagged {
        let mut s = String::from_str("🚨 HID spoof detected on device ");
        push_str(&mut s, vid_pid_text.as_str());
        push_str(&mut s, " — ");
        push_decimal(&mut s, indicators.len() as u64);
        push_str(&mut s, " indicator(s)");
        s
    } else {
        let mut s = String::from_str("✅ No HID spoof indicators on device ");
        push_str(&mut s, vid_pid_text.as_str());
        s
    };
    HidSpoofReport { flagged, severity, indicators, summary }
}

} // verus!
