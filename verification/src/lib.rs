//! Classifies raw HTTP `User-Agent` header values into a normalized
//! device-identity record for the Firefox browser family.
//!
//! The classifier tolerates a known set of non-standard, ecosystem-specific
//! user-agent formats (the `Firefox-iOS-*` forms, and Safari-signature
//! strings reported by Firefox on iPads) that a generic parser cannot
//! attribute correctly on its own.

pub mod classify;
pub mod device;
pub mod text;
pub mod version;

pub use classify::get_device_info;
pub use device::DeviceFamily;
pub use device::DeviceInfo;
pub use device::OsFamily;
pub use device::Platform;
