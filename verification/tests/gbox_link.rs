use isignkit::gbox::gbox_link::{GboxLink, OptionalGboxLink};

fn texts(json: &str) -> Vec<String> {
    serde_json::from_str::<Vec<String>>(json).unwrap()
}

#[test]
fn valid_link() {
    let json = r#"[
        "https://example.com",
        "9426e3601c4821ad"
        ]"#;

    let links: Vec<Option<GboxLink>> = texts(json).into_iter().map(|t| GboxLink::from_identifier(t).ok()).collect();
    assert!(matches!(links[0], Some(GboxLink::Url(_))));
    assert!(matches!(links[1], Some(GboxLink::Digest(_))));
}

#[test]
fn invalid_link() {
    let json = r#"[
        "htt\\example.com",
        "",
        "gggg"
        ]"#;

    let links: Vec<OptionalGboxLink> = texts(json).into_iter().map(OptionalGboxLink::from_identifier).collect();
    assert!(links[0].0.is_none());
    assert!(links[1].0.is_none());
    assert!(links[2].0.is_none());
}

#[test]
fn digest_of_url_is_md5_middle() {
    // MD5("https://example.com/") = 182ccedb 33a9e03f bf1079b2 09da1a31
    let link = GboxLink::new_url("https://example.com").unwrap();
    assert_eq!(link.as_str(), "https://example.com/");
    let digest = link.to_digest();
    assert!(digest.is_digest());
    assert_eq!(digest.as_str(), "33a9e03fbf1079b2");
    assert_eq!(link.into_digest().into_string(), "33a9e03fbf1079b2");
}

#[test]
fn digest_link_keeps_identifier() {
    let link = GboxLink::from_identifier("9426e3601c4821ad".to_string()).unwrap();
    assert!(link.is_digest());
    assert!(!link.is_url());
    assert!(link.as_url().is_none());
    assert_eq!(link.to_digest().as_str(), "9426e3601c4821ad");
}

#[test]
fn new_digest_hashes_its_text() {
    // MD5("abc") = 90015098 3cd24fb0 d6963f7d 28e17f72
    let link = GboxLink::new_digest("abc");
    assert_eq!(link.as_str(), "3cd24fb0d6963f7d");
}

#[test]
fn optional_links() {
    assert!(OptionalGboxLink::new_url("not a url").is_err());
    let o = OptionalGboxLink::new_url("https://gbox.run/a").unwrap();
    assert!(matches!(o.as_option(), Some(GboxLink::Url(_))));
    let o = OptionalGboxLink::new_id("9426e3601c4821ad");
    assert!(matches!(o.as_option(), Some(GboxLink::Digest(_))));
}
