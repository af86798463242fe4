use isignkit::altstore::application::Category;
use isignkit::altstore::permissions::{LegacyPermissions, ModernPermissions, OptionalPermissions};
use isignkit::error::GboxError;
use isignkit::gbox::config::EncryptedConfig;
use isignkit::gbox::crypt_keys::{CryptKeys, CryptKeysStorage};
use isignkit::gbox::schema::SchemaVersion;
use isignkit::gbox::validation::validate_dt;
use isignkit::sidestore::application::{Platform, PlatformUrl};
use isignkit::unit_number::UnsignedNumber;
use isignkit::web_url::Url;

#[test]
fn numeric_strings() {
    assert_eq!(UnsignedNumber::from_numeric_str("42"), Some(UnsignedNumber(42)));
    assert_eq!(UnsignedNumber::from_numeric_str("+7"), Some(UnsignedNumber(7)));
    assert_eq!(UnsignedNumber::from_numeric_str("18446744073709551615"), Some(UnsignedNumber(u64::MAX)));
    assert_eq!(UnsignedNumber::from_numeric_str("18446744073709551616"), None);
    assert_eq!(UnsignedNumber::from_numeric_str(""), None);
    assert_eq!(UnsignedNumber::from_numeric_str("+"), None);
    assert_eq!(UnsignedNumber::from_numeric_str("-1"), None);
    assert_eq!(UnsignedNumber::from_numeric_str("1a"), None);
    assert_eq!(UnsignedNumber::from_u64(9).0, 9);
}

#[test]
fn schema_version_current() {
    assert_eq!(SchemaVersion::current().as_str(), "1.1.2");
    assert_eq!(SchemaVersion::default().as_str(), "1.1.2");
    assert_eq!(SchemaVersion::new("1.0".to_string()).as_str(), "1.0");
}

#[test]
fn category_names() {
    assert_eq!(Category::PhotoVideo.to_string(), "photo-video");
    assert_eq!(Category::Developer.to_string(), "developer");
    assert_eq!(Category::default().to_string(), "other");
}

#[test]
fn permissions_presence() {
    assert!(OptionalPermissions(None).is_none());
    let modern = OptionalPermissions::from_modern(ModernPermissions { entitlements: vec![], privacy: vec![] });
    assert!(!modern.is_none());
    let legacy = OptionalPermissions::from_legacy(LegacyPermissions {
        permission_type: "photos".to_string(),
        usage_description: "why".to_string(),
    });
    assert!(!legacy.is_none());
}

fn keys(version: &str) -> CryptKeys {
    CryptKeys {
        gbox_version: version.to_string(),
        primary: format!("p{version}"),
        kvp: format!("k{version}"),
        config_pubkey: String::new(),
    }
}

#[test]
fn keys_storage_picks_last_serving_keys() {
    assert!(CryptKeysStorage::from_keys(vec![]).is_none());
    let storage = CryptKeysStorage::from_keys(vec![keys("1"), keys("400"), keys("560")]).unwrap();
    assert_eq!(storage.len(), 3);
    assert_eq!(storage.newest_keys().gbox_version, "560");
    assert_eq!(storage.keys_for_version("5.6.6").unwrap().gbox_version, "560");
    assert_eq!(storage.keys_for_version("4.5").unwrap().gbox_version, "1");
    assert_eq!(storage.keys_for_version("v4.2.0").unwrap().gbox_version, "400");
    assert!(storage.keys_for_version("0").is_none());
    let default = CryptKeysStorage::default();
    assert_eq!(default.len(), 1);
    assert_eq!(default.newest_keys().primary, "608ba6563a954bae2c806f98f75d6e0a");
}

#[test]
fn config_errors() {
    let k = keys("1");
    let config = EncryptedConfig::new("*not base64*".to_string());
    assert!(matches!(config.decrypt(&k), Err(GboxError::InvalidBase64(_))));
    let config = EncryptedConfig::new("AQID".to_string());
    assert_eq!(config.as_str(), "AQID");
    // an empty public key is no RSA key
    assert!(matches!(config.decrypt(&k), Err(GboxError::OpenSsl(_))));
    let mut bad_key = keys("1");
    bad_key.config_pubkey = "*".to_string();
    assert!(matches!(config.decrypt(&bad_key), Err(GboxError::InvalidBase64(_))));
}

#[test]
fn datetime_validation() {
    assert!(validate_dt("2023-09-18T08:08:58+00:00").is_ok());
    assert!(validate_dt("2023-09-18T08:08:58+0300").is_ok());
    match validate_dt("2023-09-18") {
        Err(GboxError::InvalidDateTimeFormat { got, expected }) => {
            assert_eq!(got, "2023-09-18");
            assert_eq!(expected, "%Y-%m-%dT%H:%M:%S%#z");
        }
        _ => panic!("expected an invalid date-time"),
    }
}

#[test]
fn platform_urls_once_per_platform() {
    let url = |t: &str| Url::parse(t).unwrap();
    let urls = vec![
        PlatformUrl { platform: Platform::Ios, download_url: url("https://a.example/1") },
        PlatformUrl { platform: Platform::Macos, download_url: url("https://a.example/2") },
        PlatformUrl { platform: Platform::Ios, download_url: url("https://a.example/3") },
    ];
    let unique = PlatformUrl::unique_platforms(urls);
    assert_eq!(unique.len(), 2);
    assert_eq!(unique[0].download_url.as_str(), "https://a.example/1");
    assert!(unique[0].eq(&PlatformUrl { platform: Platform::Ios, download_url: url("https://b.example/") }));
}

#[test]
fn url_parsing() {
    assert_eq!(Url::parse("https://example.com").unwrap().as_str(), "https://example.com/");
    assert!(Url::parse("htt\\example.com").is_err());
    assert_eq!(Url::example().into_string(), "https://example.com/");
}
