use isignkit::codec::md5_hex;
use isignkit::error::GboxError;
use isignkit::gbox::gbox_link::GboxLink;
use isignkit::gbox::links_map::{EncryptedLinksMap, LinksMap, LinksMapRequest};
use isignkit::instant::DateTime;
use isignkit::web_url::Url;

#[test]
fn insert_then_get() {
    let mut map = LinksMap::new();
    let link = GboxLink::new_url("https://dl.example/a.ipa").unwrap();
    let digest = link.to_digest().into_string();
    map.insert(link);
    assert_eq!(map.get(&digest).unwrap().as_str(), "https://dl.example/a.ipa");
    assert!(map.get("0000000000000000").is_none());
}

#[test]
fn identifiers_are_not_inserted() {
    let mut map = LinksMap::new();
    map.insert(GboxLink::new_digest("x"));
    assert_eq!(map.text_entries().len(), 0);
    assert_eq!(map.to_json(), "{}");
}

#[test]
fn later_link_with_same_identifier_wins() {
    let a = GboxLink::new_url("https://dl.example/a.ipa").unwrap();
    let map = LinksMap::from_links(vec![a.clone(), a]);
    assert_eq!(map.text_entries().len(), 1);
}

#[test]
fn entries_round_trip_through_text() {
    let link = GboxLink::new_url("https://dl.example/a.ipa").unwrap();
    let digest = link.to_digest().into_string();
    let map = LinksMap::from_links(vec![link]);
    let json = map.to_json();
    assert_eq!(json, format!("{{\"{digest}\":\"https://dl.example/a.ipa\"}}"));
    let again = LinksMap::from_entries(map.text_entries()).unwrap();
    assert_eq!(again.get(&digest).unwrap().as_str(), "https://dl.example/a.ipa");
}

#[test]
fn entries_with_bad_links_are_refused() {
    let result = LinksMap::from_entries(vec![("k".to_string(), "gggg".to_string())]);
    assert!(matches!(result, Err(GboxError::InvalidLink(_))));
}

#[test]
fn sealed_map_hash_and_payload() {
    let map = LinksMap::from_links(vec![GboxLink::new_url("https://dl.example/a.ipa").unwrap()]);
    let sealed = map.encrypt(&[1, 2, 3]);
    assert_eq!(sealed.mapping_hash, md5_hex(map.to_json().as_bytes()));
    assert_eq!(sealed.links_map, "AQID");
    assert_eq!(sealed.sealed_mapping().unwrap(), vec![1, 2, 3]);
    let broken = EncryptedLinksMap { mapping_hash: String::new(), links_map: "*".to_string() };
    assert!(matches!(broken.sealed_mapping(), Err(GboxError::InvalidBase64(_))));
}

#[test]
fn request_json_and_password() {
    let request = LinksMapRequest {
        access_code: "co\"de".to_string(),
        udid: "U1".to_string(),
        timestamp: DateTime::from_timestamp(61, 0).unwrap(),
    };
    assert_eq!(request.to_json(), r#"{"pwd":"co\"de","udid":"U1","timestamp":"61"}"#);
    let url = Url::parse("https://r.example/").unwrap();
    assert_eq!(LinksMapRequest::password(&url), md5_hex(b"https://r.example/"));
    assert_eq!(LinksMapRequest::encrypt(&[0xff]), "/w==");
    assert_eq!(LinksMapRequest::sealed_request("/w==").unwrap(), vec![0xff]);
}

#[test]
fn md5_hex_known_value() {
    assert_eq!(md5_hex(b"abc"), "900150983cd24fb0d6963f7d28e17f72");
    assert_eq!(md5_hex(b""), "d41d8cd98f00b204e9800998ecf8427e");
}
