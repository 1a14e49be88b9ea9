//! The analysis engine: HID spoof detection, byte statistics for the
//! entropy scan, keystroke timing heuristics, honey tokens, threat feeds,
//! and the trust score that combines the findings.
pub mod entropy;
pub mod honey_token;
pub mod hid_spoof;
pub mod keystroke;
pub mod pipeline;
pub mod sandbox;
pub mod yara_engine;
pub mod threat_intel;
