//! Device admission policies: access control, port geo-fencing and
//! hardware passports.
pub mod rbac;
pub mod geofence;
pub mod device_passport;
