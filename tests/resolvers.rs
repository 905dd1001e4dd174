use device_detector::client::{ClientList, ClientRule, ClientType};
use device_detector::device::{DeviceList, DeviceRule, DeviceType};
use device_detector::hints::ClientHint;
use device_detector::known_browsers::AvailableBrowsers;
use device_detector::os::{OsList, OsRule};
use device_detector::pattern::PatternCache;

fn caps(groups: &[Option<&str>]) -> Vec<Option<String>> {
    groups.iter().map(|g| g.map(|s| s.to_string())).collect()
}

fn no_hints() -> ClientHint {
    ClientHint { mobile: false, platform: None, platform_version: None, architecture: None, app: None }
}

#[test]
fn os_from_given_match() {
    let mut cache = PatternCache::new();
    let mut oss = OsList::new();
    oss.add_rule(&mut cache, "Mac OS X (\\d+)[_.](\\d+)", OsRule { name: "Mac".to_string(), version: "$1.$2".to_string() }).unwrap();
    let os = oss.resolve(Some((0, caps(&[Some("Mac OS X 14_0"), Some("14"), Some("0")]))), None).unwrap();
    assert_eq!(os.name, "Mac");
    assert_eq!(os.version.as_deref(), Some("14"));
    assert!(os.platform.is_none());
    assert!(oss.resolve(None, None).is_none());
    let os = oss.resolve(None, Some(&no_hints()));
    assert!(os.is_none());
    let mut h = no_hints();
    h.platform_version = Some("13.5.1".to_string());
    let os = oss.resolve(Some((0, caps(&[Some("x"), Some("10"), None]))), Some(&h)).unwrap();
    assert_eq!(os.name, "Mac");
    assert_eq!(os.version.as_deref(), Some("13.5.1"));
    let os = oss.resolve(Some((0, caps(&[Some("x"), Some("10"), None]))), None).unwrap();
    assert_eq!(os.version.as_deref(), Some("10."));
}

#[test]
fn client_from_given_match() {
    let mut cache = PatternCache::new();
    let mut clients = ClientList::new();
    clients
        .add_rule(&mut cache, "(opera|chrome) ?(\\d+)", ClientRule { client_type: ClientType::Browser, name: "$1".to_string(), version: "$2.0".to_string(), engine: None })
        .unwrap();
    clients
        .add_rule(&mut cache, "Feedly/(\\d+)", ClientRule { client_type: ClientType::FeedReader, name: "Feedly".to_string(), version: "$1".to_string(), engine: None })
        .unwrap();
    let catalog = AvailableBrowsers::new();
    let apps = vec![("com.x".to_string(), "X App".to_string())];
    let c = clients.resolve(&catalog, &apps, Some((0, caps(&[Some("chrome 99"), Some("chrome"), Some("99")]))), None).unwrap();
    assert_eq!(c.name, "Chrome");
    assert_eq!(c.version.as_deref(), Some("99"));
    assert_eq!(c.family.as_deref(), Some("Chrome"));
    let c = clients.resolve(&catalog, &apps, Some((1, caps(&[Some("Feedly/3"), Some("3")]))), None).unwrap();
    assert_eq!(c.client_type, ClientType::FeedReader);
    assert_eq!(c.name, "Feedly");
    assert!(c.family.is_none());
    let mut h = no_hints();
    h.app = Some("com.x".to_string());
    let c = clients.resolve(&catalog, &apps, None, Some(&h)).unwrap();
    assert_eq!(c.client_type, ClientType::MobileApp);
    assert_eq!(c.name, "X App");
    assert!(clients.resolve(&catalog, &apps, None, None).is_none());
}

#[test]
fn device_from_given_match() {
    let mut cache = PatternCache::new();
    let mut devices = DeviceList::new();
    devices
        .add_rule(&mut cache, "SM-(T\\d+)", DeviceRule { device_type: Some(DeviceType::Tablet), brand: "Samsung".to_string(), model: "Galaxy Tab $1".to_string() })
        .unwrap();
    let d = devices.resolve(Some((0, caps(&[Some("SM-T510"), Some("T510")]))), false, None);
    assert_eq!(d.device_type, Some(DeviceType::Tablet));
    assert_eq!(d.brand.as_deref(), Some("Samsung"));
    assert_eq!(d.model.as_deref(), Some("Galaxy Tab T510"));
    assert!(!d.touch_enabled);
    let mut h = no_hints();
    h.mobile = true;
    let d = devices.resolve(None, true, Some(&h));
    assert!(d.device_type.is_none());
    assert!(d.brand.is_none());
    assert!(d.touch_enabled);
    assert!(d.mobile_client_hint);
}
