use isignkit::gbox::gbox_link::{GboxLink, OptionalGboxLink};
use isignkit::gbox::links_map::LinksMap;
use isignkit::gbox::schema::SchemaVersion;
use isignkit::gbox::unencrypted::{Item, ItemApplication, ItemBase, ItemFile, ItemLink, RepoInfo, Repository};
use isignkit::web_url::Url;

fn base(name: &str) -> ItemBase {
    ItemBase {
        name: name.to_string(),
        description: String::new(),
        version: None,
        image: OptionalGboxLink::new_url("https://img.example/i.png").unwrap(),
        update_time: String::new(),
        password_locked: false,
        hide: false,
        detailed_info: None,
        force_ppq_bypass: false,
    }
}

fn repo() -> Repository {
    Repository {
        schema_version: SchemaVersion::current(),
        info: RepoInfo {
            name: "r".to_string(),
            author: String::new(),
            icon_image_url: String::new(),
            description: String::new(),
            link_title: String::new(),
            link_url: Url::parse("https://r.example").unwrap(),
            update_time: String::new(),
            items_unlock_hash: None,
            source_processor: None,
            export_enable: None,
        },
        categories: vec![],
        applications: vec![
            Item::SelfSign(ItemApplication {
                base: base("app"),
                link: Some(GboxLink::new_url("https://dl.example/app.ipa").unwrap()),
                ext_info_link: Some(GboxLink::new_url("https://dl.example/app.plist").unwrap()),
            }),
            Item::Link(ItemLink { base: base("link"), link: None }),
            Item::File(ItemFile { base: base("file"), link: GboxLink::new_url("https://dl.example/file.zip").unwrap() }),
        ],
    }
}

fn texts(r: &Repository) -> Vec<String> {
    let mut out = Vec::new();
    for item in &r.applications {
        match item {
            Item::SelfSign(a) | Item::EnterpriseSign(a) => {
                out.extend(a.link.iter().map(|l| l.to_string()));
                out.extend(a.ext_info_link.iter().map(|l| l.to_string()));
            }
            Item::Link(l) => out.extend(l.link.iter().map(|l| l.to_string())),
            Item::Shareing(s) => {
                out.extend(s.link.iter().map(|l| l.to_string()));
                out.extend(s.ext_info_link.iter().map(|l| l.to_string()));
            }
            Item::File(f) => out.push(f.link.to_string()),
        }
    }
    out
}

#[test]
fn links_map_holds_each_content_url() {
    let map = repo().create_links_map();
    let digest = GboxLink::new_digest("https://dl.example/app.ipa");
    assert_eq!(map.get(digest.as_str()).unwrap().as_str(), "https://dl.example/app.ipa");
    let digest = GboxLink::new_digest("https://dl.example/file.zip");
    assert_eq!(map.get(digest.as_str()).unwrap().as_str(), "https://dl.example/file.zip");
    // images are not content links
    assert!(map.get(GboxLink::new_digest("https://img.example/i.png").as_str()).is_none());
}

#[test]
fn obfuscate_replaces_links_by_identifiers() {
    let mut r = repo();
    r.obfuscate_links();
    let hidden = texts(&r);
    assert_eq!(hidden.len(), 3);
    assert_eq!(hidden[0], GboxLink::new_digest("https://dl.example/app.ipa").to_string());
    assert!(hidden.iter().all(|t| t.len() == 16));
    // images stay
    if let Item::SelfSign(a) = &r.applications[0] {
        assert!(matches!(a.base.image.0, Some(GboxLink::Url(_))));
    }
}

#[test]
fn normalize_undoes_obfuscate() {
    let plain = repo();
    let map = plain.create_links_map();
    let mut r = repo();
    r.obfuscate_links();
    r.normalize_links(&map);
    assert_eq!(texts(&r), texts(&plain));
}

#[test]
fn normalize_keeps_unknown_identifiers() {
    let mut r = repo();
    r.obfuscate_links();
    let before = texts(&r);
    r.normalize_links(&LinksMap::new());
    assert_eq!(texts(&r), before);
}
