use ua_classifier::get_device_info;
use ua_classifier::DeviceFamily;
use ua_classifier::DeviceInfo;
use ua_classifier::OsFamily;
use ua_classifier::Platform;

fn unknown() -> DeviceInfo {
    DeviceInfo {
        platform: Platform::Other,
        device_family: DeviceFamily::Other,
        os_family: OsFamily::Other,
        firefox_version: 0,
    }
}

#[test]
fn totality_empty_input() {
    assert_eq!(get_device_info(""), unknown());
}

#[test]
fn totality_dash_input() {
    assert_eq!(get_device_info("-"), unknown());
}

#[test]
fn totality_garbage_bytes() {
    let garbage = "\u{1}\u{2}\u{7f}\u{fffd} \t\n\\//((!!";
    assert_eq!(get_device_info(garbage), unknown());
}

#[test]
fn totality_long_input() {
    let long = "a".repeat(100_000);
    assert_eq!(get_device_info(&long), unknown());
}

#[test]
fn non_firefox_chrome_rejected() {
    let ua = "Mozilla/5.0 (Linux; Android 9; SM-A920F) AppleWebKit/537.36 \
              (KHTML, like Gecko) Chrome/86.0.4216.0 Mobile Safari/537.36";
    assert_eq!(get_device_info(ua), unknown());
}

#[test]
fn non_firefox_msie_rejected() {
    let ua = "Mozilla/4.0 (compatible; MSIE 8.0; Windows NT 6.1; Trident/4.0)";
    assert_eq!(get_device_info(ua), unknown());
}

#[test]
fn non_firefox_fork_rejected() {
    let ua = "Floorp/128.3.0 (Intel Mac OS X 10.15) FxSync/1.130.0.20240908033729.desktop";
    assert_eq!(get_device_info(ua), unknown());
}

#[test]
fn ios_fxa_form() {
    let info = get_device_info("Firefox-iOS-FxA/24");
    assert_eq!(info.platform, Platform::FirefoxIOS);
    assert_eq!(info.os_family, OsFamily::IOS);
    assert_eq!(info.device_family, DeviceFamily::Mobile);
    assert_eq!(info.firefox_version, 24);
}

#[test]
fn ios_fxa_form_lower_case() {
    let info = get_device_info("firefox-ios-fxa/24");
    assert_eq!(info.platform, Platform::FirefoxIOS);
    assert_eq!(info.firefox_version, 24);
}

#[test]
fn ios_sync_form() {
    let info = get_device_info("Firefox-iOS-Sync/108.1b24234 (iPad; iPhone OS 16.4.1) (Firefox)");
    assert_eq!(info.platform, Platform::FirefoxIOS);
    assert_eq!(info.os_family, OsFamily::IOS);
    assert_eq!(info.device_family, DeviceFamily::Mobile);
    assert_eq!(info.firefox_version, 108);
}

#[test]
fn safari_presumed_ipad() {
    let ua = "Mozilla/5.0 (Macintosh; Intel Mac OS X 10_15_4) AppleWebKit/605.1.15 \
              (KHTML, like Gecko) Version/13.1 Safari/605.1.15";
    let info = get_device_info(ua);
    assert_eq!(info.device_family, DeviceFamily::Tablet);
    assert_eq!(info.os_family, OsFamily::IOS);
    assert_eq!(info.platform, Platform::FirefoxIOS);
    assert_eq!(info.firefox_version, 13);
}

#[test]
fn desktop_linux_baseline() {
    let info = get_device_info("Mozilla/5.0 (X11; Linux x86_64; rv:109.0) Gecko/20100101 Firefox/115.0");
    assert_eq!(info.platform, Platform::FirefoxDesktop);
    assert_eq!(info.os_family, OsFamily::Linux);
    assert_eq!(info.device_family, DeviceFamily::Desktop);
    assert_eq!(info.firefox_version, 115);
}

#[test]
fn desktop_windows_sync_client() {
    let ua = "Firefox/130.0.1 (Windows NT 10.0; Win64; x64) FxSync/1.132.0.20240913135723.desktop";
    let info = get_device_info(ua);
    assert_eq!(info.platform, Platform::FirefoxDesktop);
    assert_eq!(info.os_family, OsFamily::Windows);
    assert_eq!(info.device_family, DeviceFamily::Desktop);
    assert_eq!(info.firefox_version, 130);
}

#[test]
fn android_mobile_is_fenix() {
    let info = get_device_info("Mozilla/5.0 (Android 13; Mobile; rv:130.0) Gecko/130.0 Firefox/130.0");
    assert_eq!(info.platform, Platform::Fenix);
    assert_eq!(info.os_family, OsFamily::Android);
    assert_eq!(info.device_family, DeviceFamily::Mobile);
    assert_eq!(info.firefox_version, 130);
}

#[test]
fn version_fallback_non_numeric() {
    let info = get_device_info("Firefox-iOS-FxA/beta");
    assert_eq!(info.platform, Platform::FirefoxIOS);
    assert_eq!(info.firefox_version, 0);
}

#[test]
fn version_fallback_missing() {
    let info = get_device_info("Firefox-iOS-FxA");
    assert_eq!(info.platform, Platform::FirefoxIOS);
    assert_eq!(info.firefox_version, 0);
}

#[test]
fn predicates_follow_fields() {
    let desktop = get_device_info("Mozilla/5.0 (X11; Linux x86_64; rv:109.0) Gecko/20100101 Firefox/115.0");
    assert!(desktop.is_desktop());
    assert!(!desktop.is_mobile());
    assert!(!desktop.is_ios());
    assert!(!desktop.is_fenix());

    let android = get_device_info("Mozilla/5.0 (Android 13; Mobile; rv:130.0) Gecko/130.0 Firefox/130.0");
    assert!(!android.is_desktop());
    assert!(android.is_mobile());
    assert!(!android.is_ios());
    assert!(android.is_fenix());

    let ios = get_device_info("Firefox-iOS-FxA/24");
    assert!(!ios.is_desktop());
    assert!(ios.is_mobile());
    assert!(ios.is_ios());
    assert!(!ios.is_fenix());
}

#[test]
fn tablet_is_outside_ios_predicate() {
    // The documented boundary: the iPad heuristic yields a Tablet record,
    // and the is_ios predicate deliberately covers only Mobile + IOS.
    let ua = "Mozilla/5.0 (Macintosh; Intel Mac OS X 10_15_4) AppleWebKit/605.1.15 \
              (KHTML, like Gecko) Version/13.1 Safari/605.1.15";
    let info = get_device_info(ua);
    assert_eq!(info.device_family, DeviceFamily::Tablet);
    assert!(!info.is_ios());
    assert!(!info.is_mobile());
    assert!(!info.is_desktop());
}

#[test]
fn predicates_repeat_identically() {
    let info = get_device_info("Firefox-iOS-FxA/24");
    assert_eq!(info.is_desktop(), info.is_desktop());
    assert_eq!(info.is_mobile(), info.is_mobile());
    assert_eq!(info.is_ios(), info.is_ios());
    assert_eq!(info.is_fenix(), info.is_fenix());
}

#[test]
fn os_fallback_for_unknown_token() {
    // A Firefox UA on an OS outside the closed token set: FreeBSD.
    let info = get_device_info("Mozilla/5.0 (X11; FreeBSD amd64; rv:109.0) Gecko/20100101 Firefox/115.0");
    assert_eq!(info.os_family, OsFamily::Other);
    assert_eq!(info.firefox_version, 115);
}

#[test]
fn default_record_is_unknown() {
    assert_eq!(DeviceInfo::default(), unknown());
    assert_eq!(Platform::default(), Platform::Other);
    assert_eq!(DeviceFamily::default(), DeviceFamily::Other);
    assert_eq!(OsFamily::default(), OsFamily::Other);
}

#[test]
fn enum_labels() {
    assert_eq!(Platform::FirefoxDesktop.name(), "firefoxdesktop");
    assert_eq!(Platform::Fenix.name(), "fenix");
    assert_eq!(Platform::FirefoxIOS.name(), "firefoxios");
    assert_eq!(Platform::Other.name(), "other");
    assert_eq!(DeviceFamily::Tablet.name(), "tablet");
    assert_eq!(OsFamily::MacOs.name(), "macos");
}
