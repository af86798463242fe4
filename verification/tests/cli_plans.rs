use isignkit::cli::{
    GlobalOptions, InputFile, LinksMapOutcome, LinksMapPlan, links_map_matches, links_map_outcome, plan_links_map,
    plan_map_reading,
};
use isignkit::gbox::links_map::{EncryptedLinksMap, LinkMapResponse};
use isignkit::web_url::Url;

fn options(version: &str) -> GlobalOptions {
    GlobalOptions { output: "-".to_string(), gbox_version: version.to_string(), udid: None }
}

#[test]
fn input_file_kinds() {
    assert!(matches!(InputFile::parse("-"), InputFile::Stdin));
    assert!(InputFile::parse("https://r.example/repo.json").is_remote());
    match InputFile::parse("repo.json") {
        InputFile::Local(p) => assert_eq!(p, "repo.json"),
        _ => panic!("expected a local file"),
    }
    assert_eq!(InputFile::parse("repo.json").as_str(), Some("repo.json"));
    assert_eq!(InputFile::parse("https://r.example").as_str(), Some("https://r.example/"));
    assert_eq!(InputFile::parse("-").as_str(), None);
}

#[test]
fn keys_for_gbox_versions() {
    let keys = options("5.6.6").suitable_keys().unwrap();
    assert_eq!(keys.gbox_version, "1");
    assert_eq!(keys.primary, "608ba6563a954bae2c806f98f75d6e0a");
    assert_eq!(keys.kvp, "606ea7867a9588ae2e806f98f75d8c08");
    assert!(options("0").suitable_keys().is_none());
}

#[test]
fn no_links_map_without_source_or_hash() {
    let repo = InputFile::parse("repo.json");
    assert!(matches!(plan_links_map(None, None, true, None, None, None, &repo), LinksMapPlan::Skip));
    let map = Some(InputFile::parse("map.json"));
    assert!(matches!(plan_links_map(map, None, false, None, None, None, &repo), LinksMapPlan::Skip));
}

#[test]
fn local_links_map_is_read() {
    let repo = InputFile::parse("repo.json");
    let map = Some(InputFile::parse("map.json"));
    match plan_links_map(map, None, true, None, None, None, &repo) {
        LinksMapPlan::Read(InputFile::Local(p)) => assert_eq!(p, "map.json"),
        _ => panic!("expected to read the local map"),
    }
}

#[test]
fn remote_links_map_needs_device_code_and_url() {
    let repo = InputFile::parse("https://r.example/repo.json");
    let server = Url::parse("https://unlock.example/kvp").unwrap();
    let plan = plan_links_map(None, Some(server), true, Some("udid".to_string()), Some("code".to_string()), None, &repo);
    match plan {
        LinksMapPlan::Fetch { map, udid, code, repo_url } => {
            assert_eq!(map.as_str(), "https://unlock.example/kvp");
            assert_eq!(udid, "udid");
            assert_eq!(code, "code");
            assert_eq!(repo_url, "https://r.example/repo.json");
        }
        _ => panic!("expected a fetch"),
    }
    let server = Url::parse("https://unlock.example/kvp").unwrap();
    let local = InputFile::parse("repo.json");
    let plan = plan_links_map(None, Some(server), true, Some("udid".to_string()), Some("code".to_string()), None, &local);
    assert!(matches!(plan, LinksMapPlan::Skip));
}

#[test]
fn map_reading_plans() {
    let remote = InputFile::parse("https://unlock.example/kvp");
    assert!(plan_map_reading(remote, Some("u".to_string()), None, Some("https://r.example".to_string())).is_none());
    let remote = InputFile::parse("https://unlock.example/kvp");
    let plan = plan_map_reading(remote, Some("u".to_string()), Some("c".to_string()), Some("https://r.example".to_string()));
    assert!(matches!(plan, Some(LinksMapPlan::Fetch { .. })));
    assert!(matches!(plan_map_reading(InputFile::parse("-"), None, None, None), Some(LinksMapPlan::Read(InputFile::Stdin))));
}

#[test]
fn links_map_matches_unlock_hash() {
    let map = EncryptedLinksMap { mapping_hash: "abc".to_string(), links_map: String::new() };
    assert!(links_map_matches(&map, "abc"));
    assert!(!links_map_matches(&map, "abd"));
}

#[test]
fn links_map_outcome_follows_answer_and_hash() {
    let map = || EncryptedLinksMap { mapping_hash: "abc".to_string(), links_map: "sealed".to_string() };
    let refused = LinkMapResponse::Error { error: "no access".to_string() };
    match links_map_outcome(refused, &Some("abc".to_string())) {
        LinksMapOutcome::Fail { message } => assert_eq!(message, "no access"),
        _ => panic!("a refused map fails"),
    }
    let unlock = Some("abc".to_string());
    match links_map_outcome(LinkMapResponse::Success { map: map() }, &unlock) {
        LinksMapOutcome::Open { map } => assert_eq!(map.links_map, "sealed"),
        _ => panic!("a matching map is opened"),
    }
    let other = Some("abd".to_string());
    assert!(matches!(links_map_outcome(LinkMapResponse::Success { map: map() }, &other), LinksMapOutcome::Keep));
    assert!(matches!(links_map_outcome(LinkMapResponse::Success { map: map() }, &None), LinksMapOutcome::Keep));
}
