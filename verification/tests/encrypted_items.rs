use isignkit::gbox::encrypted;
use isignkit::gbox::gbox_link::{GboxLink, OptionalGboxLink};
use isignkit::gbox::kvp::Kvp;
use isignkit::gbox::schema::SchemaVersion;
use isignkit::gbox::unencrypted::{Item, ItemApplication, ItemBase, ItemShareing, RepoInfo, Repository};
use isignkit::web_url::Url;

fn base(name: &str) -> ItemBase {
    ItemBase {
        name: name.to_string(),
        description: "desc".to_string(),
        version: Some("1.2".to_string()),
        image: OptionalGboxLink::new_id("img"),
        update_time: "2023-09-18T08:08:58+00:00".to_string(),
        password_locked: true,
        hide: true,
        detailed_info: Some("more".to_string()),
        force_ppq_bypass: true,
    }
}

fn repo() -> Repository {
    Repository {
        schema_version: SchemaVersion::current(),
        info: RepoInfo {
            name: "r".to_string(),
            author: "a".to_string(),
            icon_image_url: String::new(),
            description: String::new(),
            link_title: String::new(),
            link_url: Url::parse("https://r.example").unwrap(),
            update_time: String::new(),
            items_unlock_hash: Some("h".to_string()),
            source_processor: None,
            export_enable: Some(true),
        },
        categories: vec!["games".to_string()],
        applications: vec![
            Item::EnterpriseSign(ItemApplication {
                base: base("app"),
                link: Some(GboxLink::new_url("https://dl.example/app.ipa").unwrap()),
                ext_info_link: None,
            }),
            Item::Shareing(ItemShareing {
                base: base("shared"),
                link: Some(GboxLink::new_url("https://dl.example/s.ipa").unwrap()),
                ext_info_link: Some(GboxLink::new_url("https://dl.example/s.plist").unwrap()),
            }),
        ],
    }
}

#[test]
fn items_seal_and_open_to_themselves() {
    let r = repo();
    let sealed = r.encrypted_items();
    assert_eq!(sealed.len(), 2);
    match &sealed[1] {
        encrypted::Item::AppWithoutSign(a) => {
            assert_eq!(a.name, "shared");
            assert!(a.hide_until_unlocked);
            assert!(a.category_index.is_none());
            assert_eq!(a.ext_info_link.as_ref().unwrap().as_str(), "https://dl.example/s.plist");
            assert_eq!(a.link.as_ref().unwrap().as_str(), "https://dl.example/s.ipa");
        }
        _ => panic!("a shared app seals as an app without signing"),
    }
    let opened: Vec<Item> = sealed.into_iter().map(Item::from_encrypted).collect();
    match (&opened[0], &r.applications[0]) {
        (Item::EnterpriseSign(a), Item::EnterpriseSign(b)) => {
            assert_eq!(a.base.name, b.base.name);
            assert_eq!(a.base.detailed_info, b.base.detailed_info);
            assert_eq!(a.base.password_locked, b.base.password_locked);
            assert_eq!(a.link.as_ref().unwrap().as_str(), b.link.as_ref().unwrap().as_str());
        }
        _ => panic!("the kind of item is kept"),
    }
    match &opened[1] {
        Item::Shareing(s) => {
            assert_eq!(s.base.name, "shared");
            assert_eq!(s.link.as_ref().unwrap().as_str(), "https://dl.example/s.ipa");
            assert_eq!(s.ext_info_link.as_ref().unwrap().as_str(), "https://dl.example/s.plist");
        }
        _ => panic!("an app without signing opens as a shared app"),
    }
}

#[test]
fn repository_seals_items_as_base64() {
    let sealed = repo().encrypt(b"sealed items");
    assert_eq!(sealed.applications, "c2VhbGVkIGl0ZW1z");
    assert_eq!(sealed.info.name, "r");
    assert_eq!(sealed.categories, vec!["games".to_string()]);
    assert_eq!(sealed.decrypt_payload().unwrap(), b"sealed items".to_vec());

    let plain = sealed.decrypt(repo().encrypted_items());
    assert_eq!(plain.applications.len(), 2);
    assert_eq!(plain.info.items_unlock_hash.as_deref(), Some("h"));
}

#[test]
fn broken_payload_is_invalid_base64() {
    let mut sealed = repo().encrypt(b"x");
    sealed.applications = "@@".to_string();
    assert!(sealed.decrypt_payload().is_err());
}

#[test]
fn kvp_answer() {
    let link = GboxLink::new_url("https://dl.example/app.ipa").unwrap();
    let digest = link.to_digest().into_string();
    let links = vec![link];
    let mapping = Kvp::mapping(&links);
    assert_eq!(mapping, vec![(digest.clone(), "https://dl.example/app.ipa".to_string())]);
    let json = Kvp::payload_json(&links);
    assert_eq!(json, format!("{{\"{digest}\":\"https://dl.example/app.ipa\"}}"));
    let kvp = Kvp::new(&links, &[7]);
    assert_eq!(kvp.hash, isignkit::codec::md5_hex(json.as_bytes()));
    assert_eq!(kvp.payload, "Bw==");
}
