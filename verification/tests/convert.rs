use isignkit::altstore::application::{Application, Category, VersionAsset};
use isignkit::altstore::permissions::OptionalPermissions;
use isignkit::altstore::{self, Repository as AltRepository};
use isignkit::cli::{AnyRepository, Format};
use isignkit::error::ConversionError;
use isignkit::gbox::gbox_link::{GboxLink, OptionalGboxLink};
use isignkit::gbox::schema::SchemaVersion;
use isignkit::gbox::unencrypted::{Item, ItemApplication, ItemBase, ItemLink, ItemShareing, RepoInfo, Repository as GboxPlain};
use isignkit::gbox::{GboxRepo, encrypted};
use isignkit::instant::DateTime;
use isignkit::sidestore::{self, Repository as SideRepository};
use isignkit::web_url::Url;

fn url(text: &str) -> Url {
    Url::parse(text).unwrap()
}

fn app(name: &str, category: Option<Category>, asset: VersionAsset) -> Application {
    Application {
        name: name.to_string(),
        bundle_identifier: format!("org.example.{name}"),
        marketplace_id: None,
        developer_name: "Dev".to_string(),
        subtitle: Some("Sub".to_string()),
        localized_description: "Desc".to_string(),
        icon_url: url("https://example.org/icon.png"),
        tint_color: None,
        category,
        screenshot_asset: None,
        version_asset: asset,
        permissions: OptionalPermissions(None),
        patreon: None,
        beta: false,
    }
}

fn single(secs: i64, download: &str) -> VersionAsset {
    VersionAsset::Single {
        version: "1.0".to_string(),
        date: DateTime::from_timestamp(secs, 0).unwrap(),
        description: None,
        download_url: url(download),
        size: 3,
    }
}

fn alt_repo(apps: Vec<Application>) -> AltRepository {
    AltRepository {
        name: "Source".to_string(),
        subtitle: None,
        description: Some("About".to_string()),
        icon_url: Some(url("https://example.org/source.png")),
        header_url: None,
        website: None,
        fedi_username: Some("me".to_string()),
        patreon_url: None,
        tint_color: None,
        featured_apps: Some(vec!["org.example.a".to_string()]),
        apps: Some(apps),
        news: None,
    }
}

fn base(name: &str) -> ItemBase {
    ItemBase {
        name: name.to_string(),
        description: "d".to_string(),
        version: Some("2.0".to_string()),
        image: OptionalGboxLink(None),
        update_time: "2023-09-18T08:08:58+00:00".to_string(),
        password_locked: false,
        hide: false,
        detailed_info: None,
        force_ppq_bypass: false,
    }
}

fn info() -> RepoInfo {
    RepoInfo {
        name: "GBox source".to_string(),
        author: "author".to_string(),
        icon_image_url: "not a url".to_string(),
        description: "desc".to_string(),
        link_title: String::new(),
        link_url: url("https://gbox.example/"),
        update_time: "2023-09-18T08:08:58+00:00".to_string(),
        items_unlock_hash: None,
        source_processor: None,
        export_enable: None,
    }
}

fn gbox_plain() -> GboxRepo {
    GboxRepo::Plain(GboxPlain {
        schema_version: SchemaVersion::current(),
        info: info(),
        categories: vec![],
        applications: vec![
            Item::SelfSign(ItemApplication {
                base: base("Signed"),
                link: Some(GboxLink::new_url("https://gbox.example/app.ipa").unwrap()),
                ext_info_link: None,
            }),
            Item::Link(ItemLink { base: base("Link"), link: None }),
            Item::EnterpriseSign(ItemApplication {
                base: base("Hidden"),
                link: Some(GboxLink::new_digest("x")),
                ext_info_link: None,
            }),
        ],
    })
}

#[test]
fn useragents() {
    assert_eq!(Format::Altstore.useragent(), "AltStore/1.0");
    assert_eq!(Format::Sidestore.useragent(), "SideStore/1.0");
    assert_eq!(Format::Gbox.useragent(), "GBox/1.0");
}

#[test]
fn altstore_to_gbox_keeps_apps_with_releases() {
    let repo = alt_repo(vec![
        app("a", Some(Category::PhotoVideo), single(1_695_024_538, "https://example.org/a.ipa")),
        app("b", None, VersionAsset::Multiple { versions: vec![] }),
        app("c", Some(Category::Games), single(100, "https://example.org/c.ipa")),
    ]);
    let any = AnyRepository::Altstore(repo);
    assert_eq!(any.apps_count(), 3);
    let converted = any.convert(Format::Gbox);
    assert_eq!(converted.apps_count(), 2);
    let AnyRepository::Gbox(GboxRepo::Plain(g)) = converted else { panic!("expected a plain GBox repository") };
    assert_eq!(g.schema_version.as_str(), "1.1.2");
    assert_eq!(g.categories, vec!["photo-video".to_string(), "games".to_string()]);
    assert_eq!(g.info.name, "Source");
    assert_eq!(g.info.author, "me");
    assert_eq!(g.info.icon_image_url, "https://example.org/source.png");
    assert_eq!(g.info.description, "About");
    assert_eq!(g.info.link_url.as_str(), "https://example.com/");
    assert_eq!(g.info.update_time, "2023-09-18T08:08:58+00:00");
    match &g.applications[0] {
        Item::SelfSign(item) => {
            assert_eq!(item.base.name, "a");
            assert_eq!(item.base.version.as_deref(), Some("1.0"));
            assert_eq!(item.base.detailed_info.as_deref(), Some("Sub"));
            assert_eq!(item.base.update_time, "2023-09-18T08:08:58+00:00");
            assert_eq!(item.link.as_ref().unwrap().as_str(), "https://example.org/a.ipa");
            assert!(matches!(item.base.image.0, Some(GboxLink::Url(_))));
        }
        _ => panic!("expected an app to sign"),
    }
    match &g.applications[1] {
        Item::SelfSign(item) => assert_eq!(item.base.name, "c"),
        _ => panic!("expected an app to sign"),
    }
}

#[test]
fn altstore_app_without_release_is_no_gbox_item() {
    let result = ItemApplication::try_from_altstore(app("b", None, VersionAsset::Multiple { versions: vec![] }));
    assert!(matches!(result, Err(ConversionError::MissingVersionAsset)));
}

#[test]
fn altstore_to_sidestore_keeps_every_app() {
    let repo = alt_repo(vec![
        app("a", None, single(1, "https://example.org/a.ipa")),
        app("b", None, VersionAsset::Multiple { versions: vec![] }),
    ]);
    let converted = AnyRepository::Altstore(repo).convert(Format::Sidestore);
    assert_eq!(converted.apps_count(), 2);
    let AnyRepository::Sidestore(s) = converted else { panic!("expected a SideStore source") };
    assert_eq!(s.name, "Source");
    assert_eq!(s.featured_apps, Some(vec!["org.example.a".to_string()]));
    assert!(s.version.is_none());
    assert!(s.news.is_none());
    assert_eq!(s.apps.as_ref().unwrap()[1].name, "b");
}

#[test]
fn sidestore_to_altstore_and_back_counts() {
    let side = SideRepository::from_altstore(alt_repo(vec![app("a", None, single(1, "https://example.org/a.ipa"))]));
    let back = altstore::Repository::from_sidestore(side);
    assert_eq!(back.apps.as_ref().unwrap().len(), 1);
    assert!(back.fedi_username.is_none());
    let side = SideRepository::from_altstore(alt_repo(vec![]));
    assert_eq!(AnyRepository::Sidestore(side).convert(Format::Gbox).apps_count(), 0);
}

#[test]
fn gbox_to_stores_keeps_url_apps() {
    let altstore = AnyRepository::Gbox(gbox_plain()).convert(Format::Altstore);
    assert_eq!(altstore.apps_count(), 1);
    let AnyRepository::Altstore(a) = altstore else { panic!("expected an AltStore source") };
    assert_eq!(a.name, "GBox source");
    assert!(a.icon_url.is_none());
    assert_eq!(a.website.as_ref().unwrap().as_str(), "https://gbox.example/");
    let first = &a.apps.as_ref().unwrap()[0];
    assert_eq!(first.name, "Signed");
    assert_eq!(first.bundle_identifier, "org.example.app");
    assert_eq!(first.icon_url.as_str(), "https://example.com/");
    assert_eq!(first.version_asset.date_for_newest().unwrap().timestamp(), 1_695_024_538);

    let sidestore = AnyRepository::Gbox(gbox_plain()).convert(Format::Sidestore);
    assert_eq!(sidestore.apps_count(), 1);
}

#[test]
fn gbox_item_kinds_that_do_not_convert() {
    let link = Item::Link(ItemLink { base: base("Link"), link: None });
    assert!(matches!(Application::from_gbox_item(link), Err(ConversionError::UnsupportedItemType)));
    let hidden = Item::SelfSign(ItemApplication { base: base("Hidden"), link: None, ext_info_link: None });
    assert!(matches!(
        sidestore::application::Application::from_gbox_item(hidden),
        Err(ConversionError::InvalidOrMissingUrl)
    ));
}

#[test]
fn app_store_item_with_package_url_converts() {
    let shared = || {
        Item::Shareing(ItemShareing {
            base: base("Shared"),
            link: Some(GboxLink::new_url("https://gbox.example/shared.ipa").unwrap()),
            ext_info_link: None,
        })
    };
    let a = Application::from_gbox_item(shared()).unwrap();
    assert_eq!(a.name, "Shared");
    assert_eq!(a.bundle_identifier, "org.example.app");
    assert_eq!(a.localized_description, "d");
    match &a.version_asset {
        VersionAsset::Single { version, download_url, size, .. } => {
            assert_eq!(version, "2.0");
            assert_eq!(download_url.as_str(), "https://gbox.example/shared.ipa");
            assert_eq!(*size, 0);
        }
        _ => panic!("expected a single release"),
    }
    let s = sidestore::application::Application::from_gbox_item(shared()).unwrap();
    assert_eq!(s.name, "Shared");
    match &s.download_asset {
        sidestore::application::DownloadAsset::SingleVersion { download_url, .. } => {
            assert_eq!(download_url.as_str(), "https://gbox.example/shared.ipa");
        }
        _ => panic!("expected a single release"),
    }

    let without = Item::Shareing(ItemShareing { base: base("Shared"), link: None, ext_info_link: None });
    assert!(matches!(Application::from_gbox_item(without), Err(ConversionError::InvalidOrMissingUrl)));
}

#[test]
fn sealed_gbox_has_no_apps() {
    let sealed = GboxRepo::Encrypted(encrypted::Repository {
        schema_version: SchemaVersion::current(),
        info: info(),
        categories: vec![],
        applications: String::new(),
    });
    assert!(sealed.is_encrypted());
    assert_eq!(sealed.general_info().name, "GBox source");
    let any = AnyRepository::Gbox(sealed);
    assert_eq!(any.apps_count(), 0);
    let converted = any.convert(Format::Sidestore);
    let AnyRepository::Sidestore(s) = converted else { panic!("expected a SideStore source") };
    assert!(s.apps.is_none());
}

#[test]
fn same_format_is_kept() {
    let repo = alt_repo(vec![app("a", None, single(1, "https://example.org/a.ipa"))]);
    let converted = AnyRepository::Altstore(repo).convert(Format::Altstore);
    let AnyRepository::Altstore(a) = converted else { panic!("expected the same source") };
    assert_eq!(a.name, "Source");
    assert_eq!(a.apps.unwrap().len(), 1);
}

#[test]
fn gbox_update_time_without_releases_is_an_instant() {
    let converted = AnyRepository::Altstore(alt_repo(vec![])).convert(Format::Gbox);
    let AnyRepository::Gbox(GboxRepo::Plain(g)) = converted else { panic!("expected a plain GBox repository") };
    let at = isignkit::instant::parse_rfc3339(&g.info.update_time).expect("an RFC 3339 instant");
    assert!(at.timestamp() > 1_695_024_538);
}
