use aegis::analysis::entropy::byte_frequencies;
use aegis::analysis::hid_spoof::{
    check_hid_spoof, is_spoof_combination, USB_CLASS_HID, USB_CLASS_MASS_STORAGE,
};
use aegis::analysis::keystroke::{
    count_superhuman, is_too_fast, keystroke_severity, press_intervals, KeystrokeEvent,
};
use aegis::analysis::pipeline::{compute_trust_score, status_after_analysis};
use aegis::device::{DeviceStatus, UsbDevice};

#[test]
fn test_clean_storage_device() {
    let mut device = UsbDevice::new(0x0781, 0x5583, "1-2".into(), 1, 3, "/sys/test".into());
    device.device_class = USB_CLASS_MASS_STORAGE;
    device.has_hid_interface = false;
    device.block_device = Some("/dev/sdb".into());

    let result = check_hid_spoof(&device);
    assert!(!result.flagged);
    assert_eq!(result.summary, "✅ No HID spoof indicators on device 0781:5583");
}

#[test]
fn test_badusb_detected() {
    let mut device = UsbDevice::new(0x0483, 0x5740, "1-3".into(), 1, 4, "/sys/test".into());
    device.device_class = USB_CLASS_MASS_STORAGE;
    device.has_hid_interface = true;
    device.block_device = Some("/dev/sdc".into());

    let result = check_hid_spoof(&device);
    assert!(result.flagged);
    assert!(result.severity >= 9);
    assert_eq!(result.indicators.len(), 1);
    assert_eq!(
        result.summary,
        "🚨 HID spoof detected on device 0483:5740 — 1 indicator(s)"
    );
}

#[test]
fn test_legitimate_keyboard() {
    let mut device = UsbDevice::new(0x046D, 0xC534, "1-1".into(), 1, 2, "/sys/test".into());
    device.device_class = USB_CLASS_HID;
    device.has_hid_interface = true;
    device.block_device = None;

    let result = check_hid_spoof(&device);
    assert!(!result.flagged);
    assert_eq!(result.severity, 0);
}

#[test]
fn hid_device_with_block_device_and_composite() {
    let mut device = UsbDevice::new(0x1234, 0xABCD, "1-1".into(), 1, 2, "/sys/test".into());
    device.device_class = USB_CLASS_HID;
    device.block_device = Some("/dev/sdd".into());
    let result = check_hid_spoof(&device);
    assert!(result.flagged);
    assert_eq!(result.severity, 8);
    assert_eq!(
        result.indicators,
        vec!["HID device has block device path — abnormal configuration".to_string()]
    );

    let mut composite = UsbDevice::new(0x1234, 0xABCD, "1-1".into(), 1, 2, "/sys/test".into());
    composite.device_class = 0;
    composite.has_hid_interface = true;
    composite.block_device = Some("/dev/sde".into());
    let result = check_hid_spoof(&composite);
    assert_eq!(result.severity, 7);
    assert_eq!(result.summary, "🚨 HID spoof detected on device 1234:abcd — 1 indicator(s)");
}

#[test]
fn test_spoof_combination_detection() {
    assert!(is_spoof_combination(&[USB_CLASS_MASS_STORAGE, USB_CLASS_HID]));
    assert!(!is_spoof_combination(&[USB_CLASS_MASS_STORAGE]));
    assert!(!is_spoof_combination(&[USB_CLASS_HID]));
}

#[test]
fn spoof_combination_empty_and_other_classes() {
    assert!(!is_spoof_combination(&[]));
    assert!(!is_spoof_combination(&[0x09, 0xE0]));
    assert!(is_spoof_combination(&[0x09, USB_CLASS_HID, 0x01, USB_CLASS_MASS_STORAGE]));
}

#[test]
fn byte_frequencies_count_every_value() {
    let freq = byte_frequencies(&[]);
    assert_eq!(freq.len(), 256);
    assert!(freq.iter().all(|&c| c == 0));

    let data = vec![0xAAu8; 1024];
    let freq = byte_frequencies(&data);
    assert_eq!(freq[0xAA], 1024);
    assert_eq!(freq.iter().sum::<u64>(), 1024);

    let freq = byte_frequencies(b"hello");
    assert_eq!(freq[b'l' as usize], 2);
    assert_eq!(freq[b'h' as usize], 1);
    assert_eq!(freq[b'z' as usize], 0);
}

fn press(t: u64) -> KeystrokeEvent {
    KeystrokeEvent { timestamp_us: t, usage_code: 0x04, pressed: true }
}

#[test]
fn keystroke_intervals_skip_releases_and_saturate() {
    let events = vec![
        press(1_000),
        KeystrokeEvent { timestamp_us: 1_500, usage_code: 0x04, pressed: false },
        press(6_000),
        press(5_000),
        press(90_000),
    ];
    assert_eq!(press_intervals(&events), vec![5_000, 0, 85_000]);
    assert!(press_intervals(&[press(7)]).is_empty());
    assert!(press_intervals(&[]).is_empty());
}

#[test]
fn synthetic_typing_counts_as_too_fast() {
    // 20 presses 5 ms apart: every interval is faster than 20 ms.
    let events: Vec<KeystrokeEvent> = (0..20).map(|i| press(i * 5_000)).collect();
    let intervals = press_intervals(&events);
    assert_eq!(intervals.len(), 19);
    let fast = count_superhuman(&intervals, 20_000);
    assert_eq!(fast, 19);
    assert!(is_too_fast(fast, intervals.len()));
    assert!(keystroke_severity(true, true) >= 7);
}

#[test]
fn human_typing_is_not_too_fast() {
    let base = [75000u64, 110000, 60000, 95000, 80000, 120000, 70000, 90000, 85000, 100000, 65000];
    let mut t = 0u64;
    let events: Vec<KeystrokeEvent> = base
        .iter()
        .map(|&d| {
            t += d;
            press(t)
        })
        .collect();
    let intervals = press_intervals(&events);
    assert_eq!(count_superhuman(&intervals, 20_000), 0);
    assert!(!is_too_fast(0, intervals.len()));
}

#[test]
fn too_fast_needs_a_strict_majority() {
    assert!(!is_too_fast(5, 10));
    assert!(is_too_fast(6, 10));
    assert!(!is_too_fast(0, 0));
    assert_eq!(keystroke_severity(true, true), 9);
    assert_eq!(keystroke_severity(true, false), 7);
    assert_eq!(keystroke_severity(false, true), 6);
    assert_eq!(keystroke_severity(false, false), 0);
}

#[test]
fn trust_score_penalties() {
    assert_eq!(compute_trust_score(false, &[false], &[]), 100);
    assert_eq!(compute_trust_score(true, &[], &[]), 50);
    assert_eq!(compute_trust_score(false, &[true, true], &[]), 70);
    assert_eq!(compute_trust_score(false, &[true], &[true]), 55);
    assert_eq!(compute_trust_score(true, &[true], &[true]), 5);
    assert_eq!(compute_trust_score(true, &[true, true], &[true]), 0);
    assert_eq!(compute_trust_score(false, &vec![true; 1000], &vec![true; 1000]), 0);
}

#[test]
fn low_trust_is_quarantined() {
    assert_eq!(status_after_analysis(39), DeviceStatus::Quarantined);
    assert_eq!(status_after_analysis(40), DeviceStatus::Pending);
    assert_eq!(status_after_analysis(100), DeviceStatus::Pending);
}
