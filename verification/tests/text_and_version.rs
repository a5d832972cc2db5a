use ua_classifier::text::str_contains;
use ua_classifier::text::str_eq;
use ua_classifier::text::str_starts_with;
use ua_classifier::version::version_major;

#[test]
fn equality_on_slices() {
    assert!(str_eq("firefox", "firefox"));
    assert!(!str_eq("firefox", "firefox "));
    assert!(!str_eq("firefox", "Firefox"));
    assert!(str_eq("", ""));
}

#[test]
fn prefix_checks() {
    assert!(str_starts_with("firefox-ios-fxa/24", "firefox-ios"));
    assert!(!str_starts_with("firefox", "firefox-ios"));
    assert!(str_starts_with("anything", ""));
    assert!(!str_starts_with("Firefox-iOS", "firefox-ios"));
}

#[test]
fn substring_checks() {
    assert!(str_contains("gecko/20100101 firefox/115.0", "firefox/"));
    assert!(!str_contains("firefox-ios-fxa/24", "firefox/"));
    assert!(str_contains("abc", ""));
    assert!(!str_contains("ab", "abc"));
    assert!(str_contains("aab", "ab"));
}

#[test]
fn major_version_values() {
    assert_eq!(version_major("115.0"), 115);
    assert_eq!(version_major("24"), 24);
    assert_eq!(version_major("108.1b24234 (ipad; iphone os 16.4.1) (firefox)"), 108);
    assert_eq!(version_major("007.2"), 7);
    assert_eq!(version_major("+9.1"), 9);
    assert_eq!(version_major("4294967295"), 4294967295);
}

#[test]
fn major_version_failures() {
    assert_eq!(version_major(""), 0);
    assert_eq!(version_major("."), 0);
    assert_eq!(version_major(".5"), 0);
    assert_eq!(version_major("beta.2"), 0);
    assert_eq!(version_major("1x.2"), 0);
    assert_eq!(version_major("+"), 0);
    assert_eq!(version_major("-3.1"), 0);
    assert_eq!(version_major("4294967296.0"), 0);
}
