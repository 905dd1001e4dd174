use device_detector::bot::{lookup_bot, Bot, BotList, BotProducer};
use device_detector::client::{ClientList, ClientRule, ClientType};
use device_detector::device::{Device, DeviceList, DeviceRule, DeviceType};
use device_detector::device_detector::{parse, Detection, Engine, KnownDevice};
use device_detector::known_browsers::AvailableBrowsers;
use device_detector::os::{OsList, OsRule};
use device_detector::pattern::{DetectError, PatternCache};

const DESKTOP_UA: &str = "Mozilla/5.0 (Windows NT 10.0; Win64; x64) AppleWebKit/537.36 (KHTML, like Gecko) Chrome/120.0.0.0 Safari/537.36";
const PHONE_UA: &str = "Mozilla/5.0 (Linux; Android 14; Pixel 8) AppleWebKit/537.36 (KHTML, like Gecko) Chrome/120.0.6099.43 Mobile Safari/537.36";
const CRAWLER_UA: &str = "Mozilla/5.0 (compatible; Googlebot/2.1; +http://www.google.com/bot.html)";

fn googlebot() -> Bot {
    Bot {
        name: "Googlebot".to_string(),
        category: Some("Search bot".to_string()),
        url: Some("http://www.google.com/bot.html".to_string()),
        producer: Some(BotProducer {
            name: "Google Inc.".to_string(),
            url: "http://www.google.com".to_string(),
        }),
    }
}

fn engine() -> Engine {
    let mut cache = PatternCache::new();
    let mut bots = BotList::new();
    bots.add_rule(&mut cache, "Googlebot(?:-Mobile|-Image|-Video|-News)?", googlebot()).unwrap();
    bots.add_rule(&mut cache, "[a-z0-9_-]*bot", Bot { name: "Generic Bot".to_string(), category: None, url: None, producer: None }).unwrap();

    let mut oss = OsList::new();
    oss.add_rule(&mut cache, "Windows NT (\\d+\\.\\d+)", OsRule { name: "Windows".to_string(), version: "$1".to_string() }).unwrap();
    oss.add_rule(&mut cache, "Android (\\d+(?:\\.\\d+)*)", OsRule { name: "Android".to_string(), version: "$1".to_string() }).unwrap();

    let mut clients = ClientList::new();
    clients
        .add_rule(&mut cache,
            "Chrome/(\\d+[\\.\\d]*)",
            ClientRule { client_type: ClientType::Browser, name: "Chrome".to_string(), version: "$1".to_string(), engine: Some("Blink".to_string()) },
        )
        .unwrap();
    clients
        .add_rule(&mut cache,
            "curl/(\\d+[\\.\\d]*)",
            ClientRule { client_type: ClientType::Library, name: "curl".to_string(), version: "$1".to_string(), engine: None },
        )
        .unwrap();

    let mut devices = DeviceList::new();
    devices
        .add_rule(&mut cache, "Pixel (\\d+)", DeviceRule { device_type: Some(DeviceType::SmartPhone), brand: "Google".to_string(), model: "Pixel $1".to_string() })
        .unwrap();
    devices
        .add_rule(&mut cache, "Windows NT", DeviceRule { device_type: Some(DeviceType::Desktop), brand: String::new(), model: String::new() })
        .unwrap();
    devices.add_touch_rule(&mut cache, "Touch").unwrap();

    Engine {
        bots,
        oss,
        clients,
        devices,
        browsers: AvailableBrowsers::new(),
        apps: vec![("org.mozilla.focus".to_string(), "Firefox Focus".to_string())],
    }
}

fn known(d: Detection) -> KnownDevice {
    match d {
        Detection::Known(k) => k,
        Detection::Bot(_) => panic!("expected a known device"),
    }
}

#[test]
fn crawler_is_a_bot() {
    let e = engine();
    match parse(&e, CRAWLER_UA, None).unwrap() {
        Detection::Bot(b) => {
            assert_eq!(b.name, "Googlebot");
            assert_eq!(b.category.as_deref(), Some("Search bot"));
            assert_eq!(b.producer.unwrap().name, "Google Inc.");
        }
        Detection::Known(_) => panic!("expected a bot"),
    }
}

#[test]
fn bot_ignores_client_hints() {
    let e = engine();
    let headers = vec![("Sec-CH-UA-Mobile".to_string(), "?1".to_string())];
    match parse(&e, CRAWLER_UA, Some(headers)).unwrap() {
        Detection::Bot(b) => assert_eq!(b.name, "Googlebot"),
        Detection::Known(_) => panic!("expected a bot"),
    }
}

#[test]
fn earlier_bot_rule_wins() {
    let e = engine();
    // both rules match; the first one is applied
    let b = lookup_bot(&e.bots, CRAWLER_UA).unwrap().unwrap();
    assert_eq!(b.name, "Googlebot");
    let other = lookup_bot(&e.bots, "Mozilla/5.0 (compatible; bingbot/2.0)").unwrap().unwrap();
    assert_eq!(other.name, "Generic Bot");
    assert!(lookup_bot(&e.bots, DESKTOP_UA).unwrap().is_none());
}

#[test]
fn desktop_browser() {
    let e = engine();
    let k = known(parse(&e, DESKTOP_UA, None).unwrap());
    assert_eq!(k.device.device_type, Some(DeviceType::Desktop));
    let client = k.client.as_ref().unwrap();
    assert_eq!(client.client_type, ClientType::Browser);
    assert_eq!(client.name, "Chrome");
    assert_eq!(client.version.as_deref(), Some("120"));
    assert_eq!(client.family.as_deref(), Some("Chrome"));
    assert_eq!(client.engine.as_deref(), Some("Blink"));
    let os = k.os.as_ref().unwrap();
    assert_eq!(os.name, "Windows");
    assert_eq!(os.version.as_deref(), Some("10"));
    assert!(k.is_desktop());
    assert!(!k.is_mobile());
    assert!(k.is_browser());
    assert!(!k.is_touch_enabled());
}

#[test]
fn smartphone_browser() {
    let e = engine();
    let k = known(parse(&e, PHONE_UA, None).unwrap());
    assert_eq!(k.device.device_type, Some(DeviceType::SmartPhone));
    assert_eq!(k.device.brand.as_deref(), Some("Google"));
    assert_eq!(k.device.model.as_deref(), Some("Pixel 8"));
    assert!(k.is_mobile());
    assert!(k.is_smart_phone());
    assert!(!k.is_desktop());
    let os = k.os.as_ref().unwrap();
    assert_eq!(os.name, "Android");
    assert_eq!(os.version.as_deref(), Some("14"));
    assert_eq!(k.client.as_ref().unwrap().version.as_deref(), Some("120.0.6099.43"));
}

#[test]
fn unmatched_user_agent() {
    let e = engine();
    let k = known(parse(&e, "SomethingUnheardOf", None).unwrap());
    assert!(k.device.device_type.is_none());
    assert!(k.client.is_none());
    assert!(k.os.is_none());
    assert!(k.is_mobile());
    assert!(!k.is_desktop());
    assert!(!k.is_touch_enabled());
    assert!(!k.is_browser());
    assert!(!k.is_library());
    assert!(!k.is_mobile_app());
    assert!(!k.is_media_player());
    assert!(!k.is_feed_reader());
    assert!(!k.is_pim());
    assert!(!k.is_console());
    assert!(!k.is_car_browser());
    assert!(!k.is_camera());
    assert!(!k.is_portable_media_player());
    assert!(!k.is_notebook());
    assert!(!k.is_television());
    assert!(!k.is_smart_display());
    assert!(!k.is_feature_phone());
    assert!(!k.is_smart_phone());
    assert!(!k.is_tablet());
    assert!(!k.is_smart_speaker());
    assert!(!k.is_peripheral());
    assert!(!k.is_bot());
}

#[test]
fn mobile_hint_on_desktop() {
    let e = engine();
    let headers = vec![("Sec-CH-UA-Mobile".to_string(), "?1".to_string())];
    let k = known(parse(&e, DESKTOP_UA, Some(headers)).unwrap());
    assert_eq!(k.device.device_type, Some(DeviceType::Desktop));
    assert!(k.device.mobile_client_hint);
    assert!(k.is_mobile());
    assert!(k.is_desktop());
}

#[test]
fn hints_supersede_os_fields() {
    let e = engine();
    let headers = vec![
        ("sec-ch-ua-platform".to_string(), "\"Windows\"".to_string()),
        ("SEC-CH-UA-PLATFORM-VERSION".to_string(), "\"15.0.0\"".to_string()),
        ("Sec-CH-UA-Arch".to_string(), "\"x86\"".to_string()),
    ];
    let k = known(parse(&e, DESKTOP_UA, Some(headers)).unwrap());
    let os = k.os.unwrap();
    assert_eq!(os.name, "Windows");
    assert_eq!(os.version.as_deref(), Some("15.0.0"));
    assert_eq!(os.platform.as_deref(), Some("x86"));
}

#[test]
fn hint_platform_without_ua_match() {
    let e = engine();
    let headers = vec![("Sec-CH-UA-Platform".to_string(), "\"Linux\"".to_string())];
    let k = known(parse(&e, "SomethingUnheardOf", Some(headers)).unwrap());
    let os = k.os.unwrap();
    assert_eq!(os.name, "Linux");
    assert!(os.version.is_none());
}

#[test]
fn app_hint_gives_client() {
    let e = engine();
    let headers = vec![("X-Requested-With".to_string(), "org.mozilla.focus".to_string())];
    let k = known(parse(&e, "SomethingUnheardOf", Some(headers)).unwrap());
    let c = k.client.unwrap();
    assert_eq!(c.client_type, ClientType::MobileApp);
    assert_eq!(c.name, "Firefox Focus");
    assert!(k.device.device_type.is_none());
}

#[test]
fn touch_rule_sets_touch() {
    let e = engine();
    let k = known(parse(&e, "Mozilla/5.0 (Windows NT 6.2; ARM; Trident/7.0; Touch; rv:11.0) like Gecko", None).unwrap());
    assert!(k.is_touch_enabled());
    assert!(k.is_desktop());
}

#[test]
fn library_client() {
    let e = engine();
    let k = known(parse(&e, "curl/7.68.0", None).unwrap());
    assert!(k.is_library());
    assert!(!k.is_browser());
    assert_eq!(k.client.unwrap().version.as_deref(), Some("7.68"));
}

#[test]
fn repeated_parse_is_identical() {
    let e = engine();
    let a = known(parse(&e, PHONE_UA, None).unwrap());
    let b = known(parse(&e, PHONE_UA, None).unwrap());
    assert_eq!(format!("{:?}", a.client), format!("{:?}", b.client));
    assert_eq!(format!("{:?}", a.device), format!("{:?}", b.device));
    assert_eq!(format!("{:?}", a.os), format!("{:?}", b.os));
}

#[test]
fn invalid_rule_pattern_is_rejected() {
    let mut cache = PatternCache::new();
    let mut bots = BotList::new();
    assert_eq!(bots.add_rule(&mut cache, "(unclosed", googlebot()).unwrap_err(), DetectError::InvalidPattern);
    let mut oss = OsList::new();
    assert_eq!(
        oss.add_rule(&mut cache, "[z-a]", OsRule { name: "X".to_string(), version: String::new() }).unwrap_err(),
        DetectError::InvalidPattern
    );
}

fn device(device_type: Option<DeviceType>, mobile_client_hint: bool) -> Device {
    Device { device_type, brand: None, model: None, touch_enabled: false, mobile_client_hint }
}

#[test]
fn mobile_predicate_by_device_type() {
    for t in [DeviceType::FeaturePhone, DeviceType::SmartPhone, DeviceType::Tablet, DeviceType::Phablet, DeviceType::Camera, DeviceType::PortableMediaPlayer] {
        let k = KnownDevice { client: None, device: device(Some(t), false), os: None };
        assert!(k.is_mobile());
    }
    for t in [DeviceType::Television, DeviceType::SmartDisplay, DeviceType::Console, DeviceType::Desktop] {
        let k = KnownDevice { client: None, device: device(Some(t), false), os: None };
        assert!(!k.is_mobile());
    }
    let k = KnownDevice { client: None, device: device(Some(DeviceType::Television), true), os: None };
    assert!(k.is_mobile());
    assert!(k.is_television());
    let k = KnownDevice { client: None, device: device(Some(DeviceType::Notebook), false), os: None };
    assert!(k.is_mobile());
    assert!(k.is_notebook());
}

#[test]
fn mobile_only_browser_on_desktop_type_counts_as_mobile() {
    let browsers = AvailableBrowsers::new();
    let b = browsers.search_by_name("Samsung Browser").unwrap();
    assert!(b.mobile_only);
    let client = device_detector::client::Client {
        client_type: ClientType::Browser,
        name: b.name.clone(),
        version: None,
        engine: None,
        family: b.family.clone(),
        mobile_only: b.mobile_only,
    };
    let k = KnownDevice { client: Some(client), device: device(Some(DeviceType::Desktop), false), os: None };
    assert!(k.is_mobile());
    assert!(k.is_desktop());
}

#[test]
fn runaway_pattern_is_a_match_error() {
    let mut cache = PatternCache::new();
    let mut bots = BotList::new();
    bots.add_rule(&mut cache, "(a|aa)+\\1b", googlebot()).unwrap();
    let e = Engine {
        bots,
        oss: OsList::new(),
        clients: ClientList::new(),
        devices: DeviceList::new(),
        browsers: AvailableBrowsers::new(),
        apps: Vec::new(),
    };
    let ua = "a".repeat(60);
    assert_eq!(parse(&e, &ua, None).err(), Some(DetectError::MatchFailed));
}

#[test]
fn cache_compiles_each_text_once() {
    let mut cache = PatternCache::new();
    let a = cache.compile("Chrome/(\\d+)").unwrap();
    let b = cache.compile("Chrome/(\\d+)").unwrap();
    let caps_a = a.captures("Chrome/99").unwrap().unwrap();
    let caps_b = b.captures("Chrome/99").unwrap().unwrap();
    assert_eq!(caps_a, caps_b);
    assert_eq!(caps_a[1].as_deref(), Some("99"));
    assert!(a.captures("Firefox/1").unwrap().is_none());
    assert_eq!(cache.compile("(broken").err(), Some(DetectError::InvalidPattern));
}

#[test]
fn malformed_extra_header_changes_nothing() {
    let e = engine();
    let base = vec![("Sec-CH-UA-Platform".to_string(), "\"Windows\"".to_string())];
    let mut extra = base.clone();
    extra.insert(0, ("sec-ch-ua-mobile".to_string(), "maybe".to_string()));
    extra.push(("Sec-CH-UA-Platform".to_string(), "Windows".to_string()));
    let a = known(parse(&e, PHONE_UA, Some(base)).unwrap());
    let b = known(parse(&e, PHONE_UA, Some(extra)).unwrap());
    assert_eq!(format!("{:?}", a), format!("{:?}", b));
    assert_eq!(a.os.unwrap().name, "Windows");
    assert!(!b.device.mobile_client_hint);
}
