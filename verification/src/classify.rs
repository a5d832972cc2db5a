//! The classifier: baseline extraction through the generic parser, the
//! ordered correction rules for known non-standard user-agent formats, the
//! Firefox gate, and the mapping into the closed enumerations.

use vstd::prelude::*;
use vstd::string::*;

use crate::device::DeviceFamily;
use crate::device::DeviceInfo;
use crate::device::OsFamily;
use crate::device::Platform;
use crate::device::platform_for;
use crate::device::unknown_device_info;
use crate::text::has_substring;
use crate::text::lower_of;
use crate::text::lowercase;
use crate::text::str_contains;
use crate::text::str_eq;
use crate::text::str_starts_with;
use crate::version::char_index;
use crate::version::find_first;
use crate::version::version_major;
use crate::version::version_major_of;

verus! {

/// The baseline fields after the correction rules have run, ready for the
/// gate and the enumeration mapping. All text fields are as the mapping
/// reads them: browser and os lower-cased, category as the parser gave it.
pub ghost struct CorrectedFields {
    pub browser: Seq<char>,
    pub category: Seq<char>,
    pub os: Seq<char>,
    pub version: Seq<char>,
}

/// The raw string, lower-cased, announces one of the two known
/// non-standard Firefox-on-iOS formats.
pub open spec fn ios_prefixed(raw_lower: Seq<char>) -> bool {
    "firefox-ios"@.is_prefix_of(raw_lower)
}

/// Everything after the first `/` of `s`, or empty if `s` has none. The
/// non-standard iOS formats carry their version there.
pub open spec fn after_first_slash(s: Seq<char>) -> Seq<char> {
    if char_index(s, '/') < s.len() {
        s.subrange(char_index(s, '/') + 1, s.len() as int)
    } else {
        Seq::empty()
    }
}

/// The two ordered correction rules, applied to the baseline fields.
///
/// First, a raw string with the `firefox-ios` prefix is reclaimed as
/// Firefox on an iPhone, with its version read from the text after the
/// first `/`. Second, a Safari-named baseline without any `firefox/` token
/// is presumed to be Firefox on an iPad; this is the documented
/// accepted approximation, not a certainty.
pub open spec fn corrected_fields(
    raw_lower: Seq<char>,
    browser_lower: Seq<char>,
    category: Seq<char>,
    os_lower: Seq<char>,
    version: Seq<char>,
) -> CorrectedFields {
    let base = if ios_prefixed(raw_lower) {
        CorrectedFields {
            browser: "firefox"@,
            category: "smartphone"@,
            os: "iphone"@,
            version: after_first_slash(raw_lower),
        }
    } else {
        CorrectedFields { browser: browser_lower, category: category, os: os_lower, version: version }
    };
    if base.browser == "safari"@ && !has_substring(raw_lower, "firefox/"@) {
        CorrectedFields {
            browser: "firefox"@,
            category: "smartphone"@,
            os: "ipad"@,
            version: base.version,
        }
    } else {
        base
    }
}

/// The ordered, case-insensitive mapping of a corrected OS token into its
/// bucket; the first matching rule wins.
pub open spec fn os_family_for(os: Seq<char>) -> OsFamily {
    if "windows"@.is_prefix_of(os) {
        OsFamily::Windows
    } else if os == "mac osx"@ {
        OsFamily::MacOs
    } else if os == "linux"@ {
        OsFamily::Linux
    } else if os == "iphone"@ || os == "ipad"@ {
        OsFamily::IOS
    } else if os == "android"@ {
        OsFamily::Android
    } else {
        OsFamily::Other
    }
}

/// The mapping of a corrected category token into a form factor; a
/// smartphone on the `ipad` OS token counts as a tablet.
pub open spec fn device_family_for(category: Seq<char>, os: Seq<char>) -> DeviceFamily {
    if category == "pc"@ {
        DeviceFamily::Desktop
    } else if category == "smartphone"@ && os == "ipad"@ {
        DeviceFamily::Tablet
    } else if category == "smartphone"@ {
        DeviceFamily::Mobile
    } else {
        DeviceFamily::Other
    }
}

/// The full classification of one set of baseline fields: corrections,
/// then the Firefox gate, then the enumeration mapping and the version
/// extraction. Any input whose corrected browser name is not `firefox`
/// maps to the unknown record.
pub open spec fn classify_fields(
    raw_lower: Seq<char>,
    browser_lower: Seq<char>,
    category: Seq<char>,
    os_lower: Seq<char>,
    version: Seq<char>,
) -> DeviceInfo {
    let c = corrected_fields(raw_lower, browser_lower, category, os_lower, version);
    if c.browser != "firefox"@ {
        unknown_device_info()
    } else {
        let os_family = os_family_for(c.os);
        let device_family = device_family_for(c.category, c.os);
        DeviceInfo {
            platform: platform_for(device_family, os_family),
            device_family: device_family,
            os_family: os_family,
            firefox_version: version_major_of(c.version),
        }
    }
}

/// The four baseline fields (browser name, category, OS token, version
/// string) that the generic user-agent parser extracts from an agent
/// string, with the all-empty fields wherever it extracts nothing. The
/// parser works from built-in signature tables, so the fields depend on
/// the agent string alone.
pub uninterp spec fn parsed_baseline(ua: Seq<char>) -> (Seq<char>, Seq<char>, Seq<char>, Seq<char>);

/// Relies on `woothee::parser::Parser::parse`: a pure match of the agent
/// string against woothee's built-in signature tables. An agent string the
/// tables do not cover yields `None`; that case is replaced here by the
/// derived all-empty `WootheeResult`, exactly as the classifier expects to
/// see it.
#[verifier::external_body]
pub(crate) fn parse_baseline(ua: &str) -> (r: (String, String, String, String))
    ensures
        r.0@ == parsed_baseline(ua@).0,
        r.1@ == parsed_baseline(ua@).1,
        r.2@ == parsed_baseline(ua@).2,
        r.3@ == parsed_baseline(ua@).3,
{
    let w = woothee::parser::Parser::new().parse(ua).unwrap_or_default();
    (w.name.to_string(), w.category.to_string(), w.os.to_string(), w.version.to_string())
}

/// The record `get_device_info` returns for one raw user-agent string:
/// the classification of the baseline that the generic parser extracts,
/// with the case-insensitive fields lower-cased first.
pub open spec fn device_info_of(ua: Seq<char>) -> DeviceInfo {
    let b = parsed_baseline(ua);
    classify_fields(lower_of(ua), lower_of(b.0), b.1, lower_of(b.2), b.3)
}

/// Classify one set of baseline fields. `raw_lower` is the lower-cased raw
/// agent string, `browser_lower` and `os_lower` the lower-cased baseline
/// browser name and OS token, `category` and `version` the baseline fields
/// as extracted. Total: every combination of fields yields a record.
pub fn classify_baseline(
    raw_lower: &str,
    browser_lower: &str,
    category: &str,
    os_lower: &str,
    version: &str,
) -> (info: DeviceInfo)
    ensures
        info == classify_fields(raw_lower@, browser_lower@, category@, os_lower@, version@),
{
    let ios = str_starts_with(raw_lower, "firefox-ios");
    let browser_1: &str = if ios {
        "firefox"
    } else {
        browser_lower
    };
    let category_1: &str = if ios {
        "smartphone"
    } else {
        category
    };
    let os_1: &str = if ios {
        "iphone"
    } else {
        os_lower
    };
    let version_1: &str = if ios {
        let slash = find_first(raw_lower, '/');
        let raw_len = raw_lower.unicode_len();
        if slash < raw_len {
            raw_lower.substring_char(slash + 1, raw_len)
        } else {
            proof {
                assert(""@ =~= Seq::<char>::empty()) by {
                    reveal_strlit("");
                }
            }
            ""
        }
    } else {
        version
    };
    let safari = str_eq(browser_1, "safari") && !str_contains(raw_lower, "firefox/");
    let browser_2: &str = if safari {
        "firefox"
    } else {
        browser_1
    };
    let category_2: &str = if safari {
        "smartphone"
    } else {
        category_1
    };
    let os_2: &str = if safari {
        "ipad"
    } else {
        os_1
    };
    if !str_eq(browser_2, "firefox") {
        return DeviceInfo::default();
    }
    let os_family = map_os_family(os_2);
    let device_family = map_device_family(category_2, os_2);
    let platform = crate::device::platform_from(device_family, os_family);
    let firefox_version = version_major(version_1);
    DeviceInfo {
        platform: platform,
        device_family: device_family,
        os_family: os_family,
        firefox_version: firefox_version,
    }
}

/// Map a corrected, lower-cased OS token into its bucket.
fn map_os_family(os: &str) -> (o: OsFamily)
    ensures
        o == os_family_for(os@),
{
    if str_starts_with(os, "windows") {
        OsFamily::Windows
    } else if str_eq(os, "mac osx") {
        OsFamily::MacOs
    } else if str_eq(os, "linux") {
        OsFamily::Linux
    } else if str_eq(os, "iphone") {
        OsFamily::IOS
    } else if str_eq(os, "ipad") {
        OsFamily::IOS
    } else if str_eq(os, "android") {
        OsFamily::Android
    } else {
        OsFamily::Other
    }
}

/// Map a corrected category token, with the corrected OS token, into a
/// form factor.
fn map_device_family(category: &str, os: &str) -> (d: DeviceFamily)
    ensures
        d == device_family_for(category@, os@),
{
    if str_eq(category, "pc") {
        DeviceFamily::Desktop
    } else if str_eq(category, "smartphone") {
        if str_eq(os, "ipad") {
            DeviceFamily::Tablet
        } else {
            DeviceFamily::Mobile
        }
    } else {
        DeviceFamily::Other
    }
}

/// Platform-derivation invariant: every record the classifier produces
/// carries exactly the platform that `platform_for` assigns to its form
/// factor and OS bucket; the platform is never set independently.
pub proof fn lemma_platform_derived(
    raw_lower: Seq<char>,
    browser_lower: Seq<char>,
    category: Seq<char>,
    os_lower: Seq<char>,
    version: Seq<char>,
)
    ensures
        ({
            let d = classify_fields(raw_lower, browser_lower, category, os_lower, version);
            d.platform == platform_for(d.device_family, d.os_family)
        }),
{
}

/// The platform-derivation invariant holds of the record returned for any
/// raw user-agent string, whatever the generic parser extracts from it.
pub proof fn lemma_platform_derived_for(ua: Seq<char>)
    ensures
        ({
            let d = device_info_of(ua);
            d.platform == platform_for(d.device_family, d.os_family)
        }),
{
    let b = parsed_baseline(ua);
    lemma_platform_derived(lower_of(ua), lower_of(b.0), b.1, lower_of(b.2), b.3);
}

/// Non-Firefox rejection: whenever the corrected browser name is anything
/// but `firefox` — a bot, a scraper, an unrelated browser — the classifier
/// returns the unknown record, nothing else.
pub proof fn lemma_non_firefox_unknown(
    raw_lower: Seq<char>,
    browser_lower: Seq<char>,
    category: Seq<char>,
    os_lower: Seq<char>,
    version: Seq<char>,
)
    requires
        corrected_fields(raw_lower, browser_lower, category, os_lower, version).browser
            != "firefox"@,
    ensures
        classify_fields(raw_lower, browser_lower, category, os_lower, version)
            == unknown_device_info(),
{
}

/// iOS-prefix correction: any raw string with the (case-insensitive)
/// `firefox-ios` prefix is classified as Firefox iOS on a mobile iOS
/// device, whatever the generic parser made of it, with the version read
/// from the text after the first `/`.
pub proof fn lemma_ios_prefix_classified(
    raw_lower: Seq<char>,
    browser_lower: Seq<char>,
    category: Seq<char>,
    os_lower: Seq<char>,
    version: Seq<char>,
)
    requires
        ios_prefixed(raw_lower),
    ensures
        ({
            let d = classify_fields(raw_lower, browser_lower, category, os_lower, version);
            d.platform == Platform::FirefoxIOS && d.device_family == DeviceFamily::Mobile
                && d.os_family == OsFamily::IOS && d.firefox_version == version_major_of(
                after_first_slash(raw_lower),
            )
        }),
{
    reveal_strlit("firefox");
    reveal_strlit("safari");
    reveal_strlit("windows");
    reveal_strlit("iphone");
    reveal_strlit("ipad");
    reveal_strlit("mac osx");
    reveal_strlit("linux");
    reveal_strlit("smartphone");
    reveal_strlit("pc");
    let c = corrected_fields(raw_lower, browser_lower, category, os_lower, version);
    assert(c.browser == "firefox"@);
    assert(c.os == "iphone"@);
    assert(c.category == "smartphone"@);
    assert(c.version == after_first_slash(raw_lower));
    assert(!"windows"@.is_prefix_of("iphone"@));
    assert(os_family_for(c.os) == OsFamily::IOS);
    assert("iphone"@ != "ipad"@);
    assert("smartphone"@.len() != "pc"@.len());
    assert("smartphone"@ != "pc"@);
    assert(device_family_for(c.category, c.os) == DeviceFamily::Mobile);
}

/// Safari-as-iPad heuristic: a baseline whose browser name is `safari`,
/// taken from a raw string that contains no `firefox/` token and does not
/// carry the `firefox-ios` prefix, is presumed to be Firefox on an iPad:
/// a tablet on iOS, platform Firefox iOS.
pub proof fn lemma_safari_ipad(
    raw_lower: Seq<char>,
    browser_lower: Seq<char>,
    category: Seq<char>,
    os_lower: Seq<char>,
    version: Seq<char>,
)
    requires
        browser_lower == "safari"@,
        !has_substring(raw_lower, "firefox/"@),
        !ios_prefixed(raw_lower),
    ensures
        ({
            let d = classify_fields(raw_lower, browser_lower, category, os_lower, version);
            d.platform == Platform::FirefoxIOS && d.device_family == DeviceFamily::Tablet
                && d.os_family == OsFamily::IOS
        }),
{
    reveal_strlit("firefox");
    reveal_strlit("safari");
    reveal_strlit("windows");
    reveal_strlit("ipad");
    reveal_strlit("mac osx");
    reveal_strlit("linux");
    reveal_strlit("smartphone");
    reveal_strlit("pc");
    let c = corrected_fields(raw_lower, browser_lower, category, os_lower, version);
    assert(c.browser == "firefox"@);
    assert(c.os == "ipad"@);
    assert(c.category == "smartphone"@);
    assert(!"windows"@.is_prefix_of("ipad"@));
    assert("ipad"@ != "mac osx"@);
    assert("ipad"@ != "linux"@);
    assert(os_family_for(c.os) == OsFamily::IOS);
    assert("smartphone"@ != "pc"@);
    assert(device_family_for(c.category, c.os) == DeviceFamily::Tablet);
}

/// Android mobile: a baseline Firefox browser in the `smartphone` category
/// on the `android` OS token, from a raw string without the `firefox-ios`
/// prefix, is classified as Fenix on a mobile Android device.
pub proof fn lemma_android_mobile(
    raw_lower: Seq<char>,
    browser_lower: Seq<char>,
    category: Seq<char>,
    os_lower: Seq<char>,
    version: Seq<char>,
)
    requires
        browser_lower == "firefox"@,
        category == "smartphone"@,
        os_lower == "android"@,
        !ios_prefixed(raw_lower),
    ensures
        ({
            let d = classify_fields(raw_lower, browser_lower, category, os_lower, version);
            d.platform == Platform::Fenix && d.device_family == DeviceFamily::Mobile
                && d.os_family == OsFamily::Android
        }),
{
    reveal_strlit("firefox");
    reveal_strlit("safari");
    reveal_strlit("windows");
    reveal_strlit("android");
    reveal_strlit("iphone");
    reveal_strlit("ipad");
    reveal_strlit("mac osx");
    reveal_strlit("linux");
    reveal_strlit("smartphone");
    reveal_strlit("pc");
    assert(!"windows"@.is_prefix_of("android"@)) by {
        assert("android"@.subrange(0, 7)[0] == 'a');
    }
    let c = corrected_fields(raw_lower, browser_lower, category, os_lower, version);
    assert(c.browser == "firefox"@);
    assert(c.os == "android"@);
    assert(c.category == "smartphone"@);
    assert("android"@ != "mac osx"@);
    assert("android"@ != "linux"@);
    assert("android"@ != "iphone"@);
    assert("android"@ != "ipad"@);
    assert(os_family_for(c.os) == OsFamily::Android);
    assert("smartphone"@.len() != "pc"@.len());
    assert("smartphone"@ != "pc"@);
    assert(device_family_for(c.category, c.os) == DeviceFamily::Mobile);
}

/// Parse a raw `User-Agent` header value into a normalized device record.
///
/// Total over arbitrary strings: malformed, empty, or adversarial input
/// degrades to the unknown record, never to an error. The baseline comes
/// from the generic parser; the correction rules then reclaim the known
/// non-standard Firefox formats before the fields are mapped.
pub fn get_device_info(user_agent: &str) -> (info: DeviceInfo)
    ensures
        info == device_info_of(user_agent@),
{
    let baseline = parse_baseline(user_agent);
    let raw_lower = lowercase(user_agent);
    let browser_lower = lowercase(baseline.0.as_str());
    let os_lower = lowercase(baseline.2.as_str());
    classify_baseline(
        raw_lower.as_str(),
        browser_lower.as_str(),
        baseline.1.as_str(),
        os_lower.as_str(),
        baseline.3.as_str(),
    )
}

} // verus!

