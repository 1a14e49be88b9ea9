//! Device interception: reading device attributes from sysfs, the block
//! device write blocker and port power control. The file-system access
//! itself is the caller's; these modules decide on what it reads.
pub mod power_monitor;
pub mod udev_monitor;
pub mod write_blocker;
