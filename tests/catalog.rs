use device_detector::client::ClientType;
use device_detector::device::DeviceType;
use device_detector::hints::{get_hint, ClientHint};
use device_detector::known_browsers::{available_browsers, browser_families, mobile_only_browsers, AvailableBrowsers};
use device_detector::text::{fill_template, remove_spaces, strip_suffix_all, trim_version};

#[test]
fn search_ignores_case_spaces_and_browser_suffix() {
    let browsers = AvailableBrowsers::new();
    let a = browsers.search_by_name("chrome").unwrap();
    let b = browsers.search_by_name("Chrome Browser").unwrap();
    let c = browsers.search_by_name("CHROME").unwrap();
    assert_eq!(a.name, "Chrome");
    assert_eq!(b.name, "Chrome");
    assert_eq!(c.name, "Chrome");
    assert_eq!(a.family.as_deref(), Some("Chrome"));
    assert!(!a.mobile_only);
}

#[test]
fn search_appends_browser_suffix() {
    let browsers = AvailableBrowsers::new();
    let b = browsers.search_by_name("Avant").unwrap();
    assert_eq!(b.name, "Avant Browser");
    assert!(browsers.search_by_name("no such thing at all").is_none());
}

#[test]
fn catalog_families_and_mobile_flags() {
    let browsers = AvailableBrowsers::new();
    let f = browsers.search_by_name("Firefox").unwrap();
    assert_eq!(f.family.as_deref(), Some("Firefox"));
    let s = browsers.search_by_name("Samsung Browser").unwrap();
    assert!(s.mobile_only);
    assert_eq!(s.family.as_deref(), Some("Chrome"));
    let via = browsers.search_by_name("via").unwrap();
    assert!(via.family.is_none());
}

#[test]
fn catalog_tables() {
    assert_eq!(available_browsers().len(), 503);
    assert_eq!(browser_families().len(), 14);
    let mobile = mobile_only_browsers();
    assert_eq!(mobile.len(), 120);
    assert!(mobile.contains(&"36"));
}

#[test]
fn versions_lose_trailing_zero_segments() {
    assert_eq!(trim_version("14.0.0"), "14");
    assert_eq!(trim_version("10.0"), "10");
    assert_eq!(trim_version("1.00"), "1.00");
    assert_eq!(trim_version("0"), "0");
    assert_eq!(trim_version("7.68.0"), "7.68");
    assert_eq!(trim_version(""), "");
}

#[test]
fn templates_take_capture_groups() {
    let caps = vec![Some("Pixel 8".to_string()), Some("8".to_string()), None];
    assert_eq!(fill_template("Pixel $1", &caps), "Pixel 8");
    assert_eq!(fill_template("$2x$1", &caps), "x8");
    assert_eq!(fill_template("$9", &caps), "");
    assert_eq!(fill_template("cost $", &caps), "cost $");
    assert_eq!(fill_template("$a", &caps), "$a");
}

#[test]
fn text_helpers() {
    assert_eq!(remove_spaces(" a b  c "), "abc");
    assert_eq!(strip_suffix_all("chromebrowserbrowser", "browser"), "chrome");
    assert_eq!(strip_suffix_all("browser", "browser"), "");
    assert_eq!(strip_suffix_all("abc", ""), "abc");
}

#[test]
fn client_hints_are_parsed_leniently() {
    let headers = vec![
        ("SEC-CH-UA-MOBILE".to_string(), "?1".to_string()),
        ("Sec-CH-UA-Platform".to_string(), "\"Android\"".to_string()),
        ("Sec-CH-UA-Platform-Version".to_string(), "13.0.0".to_string()),
        ("X-Requested-With".to_string(), "com.example.app".to_string()),
    ];
    let h = ClientHint::from_headers(&headers);
    assert!(h.mobile);
    assert_eq!(h.platform.as_deref(), Some("Android"));
    assert!(h.platform_version.is_none());
    assert!(h.architecture.is_none());
    assert_eq!(h.app.as_deref(), Some("com.example.app"));
}

#[test]
fn later_header_overrides_and_malformed_is_skipped() {
    let headers = vec![
        ("sec-ch-ua-mobile".to_string(), "?1".to_string()),
        ("sec-ch-ua-mobile".to_string(), "yes".to_string()),
        ("sec-ch-ua-platform".to_string(), "\"\"".to_string()),
    ];
    let h = ClientHint::from_headers(&headers);
    assert!(h.mobile);
    assert!(h.platform.is_none());
    let headers = vec![
        ("sec-ch-ua-mobile".to_string(), "?1".to_string()),
        ("Sec-CH-UA-Mobile".to_string(), "?0".to_string()),
        ("sec-ch-ua-arch".to_string(), "\"arm\"".to_string()),
        ("SEC-CH-UA-ARCH".to_string(), "\"x86\"".to_string()),
    ];
    let h = ClientHint::from_headers(&headers);
    assert!(!h.mobile);
    assert_eq!(h.architecture.as_deref(), Some("x86"));
    let h = ClientHint::from_headers(&vec![("sec-ch-ua-mobile".to_string(), "?0".to_string())]);
    assert!(!h.mobile);
}

#[test]
fn app_hint_lookup() {
    let apps = vec![
        ("com.a".to_string(), "First".to_string()),
        ("com.b".to_string(), "Second".to_string()),
        ("com.a".to_string(), "Third".to_string()),
    ];
    assert_eq!(get_hint(&apps, "com.a").as_deref(), Some("Third"));
    assert_eq!(get_hint(&apps, "com.b").as_deref(), Some("Second"));
    assert!(get_hint(&apps, "com.c").is_none());
}

#[test]
fn type_names_round_trip() {
    assert_eq!(DeviceType::from_name("smartphone"), Some(DeviceType::SmartPhone));
    assert_eq!(DeviceType::from_name("tv"), Some(DeviceType::Television));
    assert_eq!(DeviceType::from_name("toaster"), None);
    assert_eq!(DeviceType::CarBrowser.name(), "car browser");
    assert_eq!(ClientType::from_name("feed reader"), Some(ClientType::FeedReader));
    assert_eq!(ClientType::Pim.name(), "pim");
    assert_eq!(ClientType::from_name("Browser"), None);
}
