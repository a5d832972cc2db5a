//! The normalized device-identity record and its closed enumerations.

use vstd::prelude::*;

verus! {

/// Coarse product identity of the client.
#[derive(Clone, Copy, Debug, Eq, Hash, PartialEq, Structural)]
pub enum Platform {
    FirefoxDesktop,
    Fenix,
    FirefoxIOS,
    Other,
}

/// Form factor of the client device.
#[derive(Clone, Copy, Debug, Eq, Hash, PartialEq, Structural)]
pub enum DeviceFamily {
    Desktop,
    Mobile,
    Tablet,
    Other,
}

/// Operating-system bucket of the client device.
#[derive(Clone, Copy, Debug, Eq, Hash, PartialEq, Structural)]
pub enum OsFamily {
    Windows,
    MacOs,
    Linux,
    IOS,
    Android,
    Other,
}

/// Normalized classification of one user-agent string.
///
/// The `platform` field is never set independently: it is always the value
/// that `platform_for` assigns to this record's `device_family` and
/// `os_family` pair.
#[derive(Debug, Eq, PartialEq, Structural)]
pub struct DeviceInfo {
    pub platform: Platform,
    pub device_family: DeviceFamily,
    pub os_family: OsFamily,
    pub firefox_version: u32,
}

/// The canonical "unrecognized input" record: every field at its
/// `Other` / zero value. Construction never fails, so every input that
/// cannot be attributed to Firefox maps to this one value.
pub open spec fn unknown_device_info() -> DeviceInfo {
    DeviceInfo {
        platform: Platform::Other,
        device_family: DeviceFamily::Other,
        os_family: OsFamily::Other,
        firefox_version: 0,
    }
}

/// The closed mapping from form factor and operating system to product
/// identity: desktops are Firefox Desktop regardless of OS; mobiles are
/// Firefox iOS on iOS and Fenix on Android; tablets are Firefox iOS on iOS;
/// everything else is Other.
pub open spec fn platform_for(device_family: DeviceFamily, os_family: OsFamily) -> Platform {
    match device_family {
        DeviceFamily::Desktop => Platform::FirefoxDesktop,
        DeviceFamily::Mobile => match os_family {
            OsFamily::IOS => Platform::FirefoxIOS,
            OsFamily::Android => Platform::Fenix,
            _ => Platform::Other,
        },
        DeviceFamily::Tablet => match os_family {
            OsFamily::IOS => Platform::FirefoxIOS,
            _ => Platform::Other,
        },
        DeviceFamily::Other => Platform::Other,
    }
}

/// Compute the product identity that `platform_for` assigns to a form
/// factor and operating system.
pub fn platform_from(device_family: DeviceFamily, os_family: OsFamily) -> (p: Platform)
    ensures
        p == platform_for(device_family, os_family),
{
    match device_family {
        DeviceFamily::Desktop => Platform::FirefoxDesktop,
        DeviceFamily::Mobile => match os_family {
            OsFamily::IOS => Platform::FirefoxIOS,
            OsFamily::Android => Platform::Fenix,
            _ => Platform::Other,
        },
        DeviceFamily::Tablet => match os_family {
            OsFamily::IOS => Platform::FirefoxIOS,
            _ => Platform::Other,
        },
        DeviceFamily::Other => Platform::Other,
    }
}

impl Platform {
    /// Lower-case label of the variant.
    pub fn name(&self) -> (s: &'static str)
        ensures
            *self == Platform::FirefoxDesktop ==> s@ == "firefoxdesktop"@,
            *self == Platform::Fenix ==> s@ == "fenix"@,
            *self == Platform::FirefoxIOS ==> s@ == "firefoxios"@,
            *self == Platform::Other ==> s@ == "other"@,
    {
        match self {
            Platform::FirefoxDesktop => "firefoxdesktop",
            Platform::Fenix => "fenix",
            Platform::FirefoxIOS => "firefoxios",
            Platform::Other => "other",
        }
    }
}

impl Default for Platform {
    fn default() -> (p: Self)
        ensures
            p == Platform::Other,
    {
        Platform::Other
    }
}

impl DeviceFamily {
    /// Lower-case label of the variant.
    pub fn name(&self) -> (s: &'static str)
        ensures
            *self == DeviceFamily::Desktop ==> s@ == "desktop"@,
            *self == DeviceFamily::Mobile ==> s@ == "mobile"@,
            *self == DeviceFamily::Tablet ==> s@ == "tablet"@,
            *self == DeviceFamily::Other ==> s@ == "other"@,
    {
        match self {
            DeviceFamily::Desktop => "desktop",
            DeviceFamily::Mobile => "mobile",
            DeviceFamily::Tablet => "tablet",
            DeviceFamily::Other => "other",
        }
    }
}

impl Default for DeviceFamily {
    fn default() -> (d: Self)
        ensures
            d == DeviceFamily::Other,
    {
        DeviceFamily::Other
    }
}

impl OsFamily {
    /// Lower-case label of the variant.
    pub fn name(&self) -> (s: &'static str)
        ensures
            *self == OsFamily::Windows ==> s@ == "windows"@,
            *self == OsFamily::MacOs ==> s@ == "macos"@,
            *self == OsFamily::Linux ==> s@ == "linux"@,
            *self == OsFamily::IOS ==> s@ == "ios"@,
            *self == OsFamily::Android ==> s@ == "android"@,
            *self == OsFamily::Other ==> s@ == "other"@,
    {
        match self {
            OsFamily::Windows => "windows",
            OsFamily::MacOs => "macos",
            OsFamily::Linux => "linux",
            OsFamily::IOS => "ios",
            OsFamily::Android => "android",
            OsFamily::Other => "other",
        }
    }
}

impl Default for OsFamily {
    fn default() -> (o: Self)
        ensures
            o == OsFamily::Other,
    {
        OsFamily::Other
    }
}

impl DeviceInfo {
    /// A desktop device: either the form factor says so, or the operating
    /// system is unambiguously a desktop one.
    pub open spec fn spec_is_desktop(self) -> bool {
        self.device_family == DeviceFamily::Desktop || self.os_family == OsFamily::MacOs
            || self.os_family == OsFamily::Windows || self.os_family == OsFamily::Linux
    }

    /// A mobile phone: mobile form factor on a phone operating system.
    pub open spec fn spec_is_mobile(self) -> bool {
        self.device_family == DeviceFamily::Mobile && (self.os_family == OsFamily::Android
            || self.os_family == OsFamily::IOS)
    }

    /// A phone-form-factor iOS device. Tablets on iOS are deliberately not
    /// covered: this mirrors the documented boundary of the classifier.
    pub open spec fn spec_is_ios(self) -> bool {
        self.device_family == DeviceFamily::Mobile && self.os_family == OsFamily::IOS
    }

    /// A phone-form-factor Android (Fenix) device.
    pub open spec fn spec_is_fenix(self) -> bool {
        self.device_family == DeviceFamily::Mobile && self.os_family == OsFamily::Android
    }

    /// Determine if the device is a desktop device based on either the form
    /// factor or OS.
    pub fn is_desktop(&self) -> (r: bool)
        ensures
            r == self.spec_is_desktop(),
    {
        matches!(&self.device_family, DeviceFamily::Desktop) || matches!(
            &self.os_family,
            OsFamily::MacOs | OsFamily::Windows | OsFamily::Linux,
        )
    }

    /// Determine if the device is a mobile phone based on both the form
    /// factor and OS.
    pub fn is_mobile(&self) -> (r: bool)
        ensures
            r == self.spec_is_mobile(),
    {
        matches!(&self.device_family, DeviceFamily::Mobile) && matches!(
            &self.os_family,
            OsFamily::Android | OsFamily::IOS,
        )
    }

    /// Determine if the device is a phone-form-factor iOS device.
    pub fn is_ios(&self) -> (r: bool)
        ensures
            r == self.spec_is_ios(),
    {
        matches!(&self.device_family, DeviceFamily::Mobile) && matches!(
            &self.os_family,
            OsFamily::IOS,
        )
    }

    /// Determine if the device is an Android (Fenix) phone.
    pub fn is_fenix(&self) -> (r: bool)
        ensures
            r == self.spec_is_fenix(),
    {
        matches!(&self.device_family, DeviceFamily::Mobile) && matches!(
            &self.os_family,
            OsFamily::Android,
        )
    }
}

impl Default for DeviceInfo {
    fn default() -> (d: Self)
        ensures
            d == unknown_device_info(),
    {
        DeviceInfo {
            platform: Platform::Other,
            device_family: DeviceFamily::Other,
            os_family: OsFamily::Other,
            firefox_version: 0,
        }
    }
}

} // verus!
