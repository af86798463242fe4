//! Apps of AltStore sources, and how they are made from SideStore apps and
//! GBox items.
use vstd::prelude::*;
use crate::altstore::color::AltStoreColor;
use crate::altstore::permissions::OptionalPermissions;
use crate::error::ConversionError;
use crate::gbox::gbox_link::{GboxLink, OptionalGboxLink};
use crate::gbox::unencrypted::{Item, ItemApplication};
use crate::instant::{latest_index, latest_position, lemma_latest_index, parse_rfc3339, rfc3339_instant, DateTime};
use crate::pairs::reversed;
use crate::sidestore;
use crate::web_url::Url;

verus! {

/// An app of an AltStore source.
#[derive(Debug)]
pub struct Application {
    /// The name shown on the app's store page.
    pub name: String,
    /// The bundle identifier (`CFBundleIdentifier`), case sensitive.
    pub bundle_identifier: String,
    /// The Apple ID of a notarized app.
    pub marketplace_id: Option<String>,
    pub developer_name: String,
    /// A one-sentence description shown in the Browse tab.
    pub subtitle: Option<String>,
    pub localized_description: String,
    pub icon_url: Url,
    pub tint_color: Option<AltStoreColor>,
    pub category: Option<Category>,
    pub screenshot_asset: Option<ScreenshotAsset>,
    pub version_asset: VersionAsset,
    pub permissions: OptionalPermissions,
    /// The pledge or tiers needed to download the app.
    pub patreon: Option<Patreon>,
    pub beta: bool,
}

/// The store category of an app.
#[derive(Debug, Clone, Copy, PartialEq, Eq, Hash)]
pub enum Category {
    Developer,
    Entertainment,
    Games,
    Lifestyle,
    Other,
    PhotoVideo,
    Social,
    Utilities,
}

/// The name of a category as sources write it (kebab case).
pub open spec fn category_name(c: Category) -> Seq<char> {
    match c {
        Category::Developer => "developer"@,
        Category::Entertainment => "entertainment"@,
        Category::Games => "games"@,
        Category::Lifestyle => "lifestyle"@,
        Category::Other => "other"@,
        Category::PhotoVideo => "photo-video"@,
        Category::Social => "social"@,
        Category::Utilities => "utilities"@,
    }
}

impl Category {
    /// The name of the category as sources write it.
    pub fn to_string(&self) -> (res: String)
        ensures
            res@ == category_name(*self),
    {
        match self {
            Category::Developer => "developer".to_owned(),
            Category::Entertainment => "entertainment".to_owned(),
            Category::Games => "games".to_owned(),
            Category::Lifestyle => "lifestyle".to_owned(),
            Category::Other => "other".to_owned(),
            Category::PhotoVideo => "photo-video".to_owned(),
            Category::Social => "social".to_owned(),
            Category::Utilities => "utilities".to_owned(),
        }
    }
}

impl Default for Category {
    /// `Other`.
    fn default() -> (res: Category)
        ensures
            res == Category::Other,
    {
        Category::Other
    }
}

/// A release of an app.
#[derive(Debug)]
pub struct Version {
    /// The version number (`CFBundleShortVersionString`).
    pub version: String,
    /// The build number (`CFBundleVersion`).
    pub build_version: Option<String>,
    /// The version shown to users.
    pub marketing_version: Option<String>,
    pub date: DateTime,
    pub localized_description: Option<String>,
    pub download_url: Url,
    pub size: u64,
    pub sha256: Option<String>,
    /// Download URLs of individual files of an app package.
    pub assets_urls: Option<Vec<(String, Url)>>,
    pub minos_version: Option<String>,
    pub maxos_version: Option<String>,
}

/// The screenshots of an app.
#[derive(Debug)]
pub enum ScreenshotAsset {
    Objects(ScreenshotObjects),
    Urls(Vec<Url>),
}

/// Screenshots with sizes: for every device, or by device.
#[derive(Debug)]
pub enum ScreenshotObjects {
    Universal(Vec<ScreenshotObject>),
    Individual(Vec<(ScreenshotDevice, Vec<ScreenshotObject>)>),
}

/// A device that screenshots are for.
#[derive(Debug, Clone, Copy, PartialEq, Eq, Hash)]
pub enum ScreenshotDevice {
    Ipad,
    Iphone,
}

/// A screenshot and its pixel size.
#[derive(Debug)]
pub struct ScreenshotObject {
    pub image_url: Url,
    pub width: Option<u64>,
    pub height: Option<u64>,
}

/// What a Patreon member needs to download an app.
#[derive(Debug)]
pub struct Patreon {
    /// The minimum pledge.
    pub pledge: Option<u64>,
    /// The ISO 4217 code of the campaign's currency.
    pub currency: Option<String>,
    /// A campaign benefit that allows the download.
    pub benefit: Option<String>,
    /// Tiers of which a member must be in one.
    pub tiers: Option<Vec<String>>,
}

/// The releases of an app: a list, or one release written in the app itself.
#[derive(Debug)]
pub enum VersionAsset {
    Multiple { versions: Vec<Version> },
    Single { version: String, date: DateTime, description: Option<String>, download_url: Url, size: i32 },
}

/// The release dates of a list of releases.
pub open spec fn version_dates(versions: Seq<Version>) -> Seq<DateTime> {
    versions.map_values(|v: Version| v.date)
}

/// The dates of releases, in order.
fn dates_of(versions: &Vec<Version>) -> (res: Vec<DateTime>)
    ensures
        res@ == version_dates(versions@),
{
    let mut res: Vec<DateTime> = Vec::new();
    let mut i: usize = 0;
    while i < versions.len()
        invariant
            i <= versions@.len(),
            res@ == version_dates(versions@).subrange(0, i as int),
        decreases versions@.len() - i,
    {
        res.push(versions[i].date);
        proof {
            assert(res@ =~= version_dates(versions@).subrange(0, i + 1));
        }
        i = i + 1;
    }
    proof {
        assert(version_dates(versions@).subrange(0, versions@.len() as int) =~= version_dates(versions@));
    }
    res
}

impl VersionAsset {
    /// The position of the newest release in a list: the latest date, the last
    /// one where several are equally late.
    pub open spec fn newest(self) -> Option<int> {
        match self {
            VersionAsset::Multiple { versions } => latest_index(version_dates(versions@)),
            VersionAsset::Single { .. } => None,
        }
    }

    /// The date, download URL and version number of the newest release.
    pub open spec fn newest_release(self) -> Option<(DateTime, Url, String)> {
        match self {
            VersionAsset::Multiple { versions } => match latest_index(version_dates(versions@)) {
                Some(i) => Some((versions@[i].date, versions@[i].download_url, versions@[i].version)),
                None => None,
            },
            VersionAsset::Single { version, date, download_url, .. } => Some((date, download_url, version)),
        }
    }

    /// The date of the newest release.
    pub fn date_for_newest(&self) -> (res: Option<DateTime>)
        ensures
            match self {
                VersionAsset::Multiple { versions } => match latest_index(version_dates(versions@)) {
                    Some(i) => res == Some(versions@[i].date),
                    None => res is None,
                },
                VersionAsset::Single { date, .. } => res == Some(*date),
            },
    {
        match self {
            VersionAsset::Multiple { versions } => {
                let dates = dates_of(versions);
                proof {
                    lemma_latest_index(version_dates(versions@));
                }
                match latest_position(&dates) {
                    Some(i) => Some(versions[i].date),
                    None => None,
                }
            },
            VersionAsset::Single { date, .. } => Some(*date),
        }
    }

    /// The download URL of the newest release.
    pub fn url_for_newest(&self) -> (res: Option<&Url>)
        ensures
            match self {
                VersionAsset::Multiple { versions } => match latest_index(version_dates(versions@)) {
                    Some(i) => res == Some(&versions@[i].download_url),
                    None => res is None,
                },
                VersionAsset::Single { download_url, .. } => res == Some(download_url),
            },
    {
        match self {
            VersionAsset::Multiple { versions } => {
                let dates = dates_of(versions);
                proof {
                    lemma_latest_index(version_dates(versions@));
                }
                match latest_position(&dates) {
                    Some(i) => Some(&versions[i].download_url),
                    None => None,
                }
            },
            VersionAsset::Single { download_url, .. } => Some(download_url),
        }
    }

    /// The version number of the newest release.
    pub fn newest_version_str(&self) -> (res: Option<&String>)
        ensures
            match self {
                VersionAsset::Multiple { versions } => match latest_index(version_dates(versions@)) {
                    Some(i) => res == Some(&versions@[i].version),
                    None => res is None,
                },
                VersionAsset::Single { version, .. } => res == Some(version),
            },
    {
        match self {
            VersionAsset::Multiple { versions } => {
                let dates = dates_of(versions);
                proof {
                    lemma_latest_index(version_dates(versions@));
                }
                match latest_position(&dates) {
                    Some(i) => Some(&versions[i].version),
                    None => None,
                }
            },
            VersionAsset::Single { version, .. } => Some(version),
        }
    }
}

/// `a` is the AltStore release made from the SideStore release `s`.
pub open spec fn version_from_sidestore(s: sidestore::application::Version, a: Version) -> bool {
    &&& a.version == s.version
    &&& a.build_version == s.build_version
    &&& a.marketing_version is None
    &&& a.date == s.date
    &&& a.localized_description == s.localized_description
    &&& a.download_url == s.download_url
    &&& a.size == s.size
    &&& a.sha256 == s.sha256
    &&& a.assets_urls is None
    &&& a.minos_version == s.minos_version
    &&& a.maxos_version == s.maxos_version
}

/// Each release of `a` is made from the SideStore release at its position in `s`.
pub open spec fn versions_from_sidestore(s: Seq<sidestore::application::Version>, a: Seq<Version>) -> bool {
    s.len() == a.len() && forall|i: int| 0 <= i < s.len() ==> #[trigger] version_from_sidestore(s[i], a[i])
}

/// `a` is the AltStore release list made from the SideStore download asset `s`.
pub open spec fn asset_from_sidestore(s: sidestore::application::DownloadAsset, a: VersionAsset) -> bool {
    match s {
        sidestore::application::DownloadAsset::Tracks { .. } => false,
        sidestore::application::DownloadAsset::Multiple { versions } => a matches VersionAsset::Multiple { versions: av }
            && versions_from_sidestore(versions@, av@),
        sidestore::application::DownloadAsset::SingleVersion { version, date, description, download_url, size } =>
            a == (VersionAsset::Single { version, date, description, download_url, size }),
    }
}

/// `a` is the AltStore app made from the SideStore app `s`.
pub open spec fn app_from_sidestore(s: sidestore::application::Application, a: Application) -> bool {
    &&& a.name == s.name
    &&& a.bundle_identifier == s.bundle_identifier
    &&& a.marketplace_id == s.marketplace_id
    &&& a.developer_name == s.developer_name
    &&& a.subtitle == s.subtitle
    &&& a.localized_description == s.localized_description
    &&& a.icon_url == s.icon_url
    &&& a.tint_color == s.tint_color
    &&& a.category == s.category
    &&& a.screenshot_asset == s.screenshot_asset
    &&& asset_from_sidestore(s.download_asset, a.version_asset)
    &&& a.permissions == s.permissions
    &&& a.patreon is None
    &&& a.beta == s.beta
}

/// Whether a GBox item can be made an AltStore app: an app item (signed by
/// the user, by an enterprise certificate, or from the App Store) whose
/// package link is a URL.
pub open spec fn gbox_item_converts(item: Item) -> bool {
    match item {
        Item::SelfSign(_) | Item::EnterpriseSign(_) | Item::Shareing(_) => {
            gbox_item_application(item).link matches Some(GboxLink::Url(_))
        },
        _ => false,
    }
}

/// The app of a GBox app item: an App Store app with its base, package and
/// plist links.
pub open spec fn gbox_item_application(item: Item) -> ItemApplication
    recommends
        item is SelfSign || item is EnterpriseSign || item is Shareing,
{
    match item {
        Item::SelfSign(app) | Item::EnterpriseSign(app) => app,
        Item::Shareing(s) => ItemApplication { base: s.base, link: s.link, ext_info_link: s.ext_info_link },
        _ => arbitrary(),
    }
}

/// Every GBox app item, whether signed by the user, by an enterprise
/// certificate or taken from the App Store, is made an app exactly where its
/// package link is a URL, and from its own name, base and links; otherwise it
/// is refused for its URL. Link and file items are never made apps and are
/// refused for their type.
pub proof fn law_app_items_with_url_convert(item: Item)
    ensures
        item matches Item::SelfSign(a) ==> (gbox_item_converts(item) <==> a.link matches Some(GboxLink::Url(_)))
            && gbox_item_application(item) == a,
        item matches Item::EnterpriseSign(a) ==> (gbox_item_converts(item) <==> a.link matches Some(GboxLink::Url(_)))
            && gbox_item_application(item) == a,
        item matches Item::Shareing(s) ==> (gbox_item_converts(item) <==> s.link matches Some(GboxLink::Url(_)))
            && gbox_item_application(item).base == s.base && gbox_item_application(item).link == s.link
            && gbox_item_application(item).ext_info_link == s.ext_info_link,
        (item is SelfSign || item is EnterpriseSign || item is Shareing) ==> gbox_item_error(item) == ConversionError::InvalidOrMissingUrl,
        (item is Link || item is File) ==> !gbox_item_converts(item) && gbox_item_error(item) == ConversionError::UnsupportedItemType,
{
}

/// The error that keeps a GBox item from being made an app.
pub open spec fn gbox_item_error(item: Item) -> ConversionError {
    match item {
        Item::SelfSign(_) | Item::EnterpriseSign(_) | Item::Shareing(_) => ConversionError::InvalidOrMissingUrl,
        _ => ConversionError::UnsupportedItemType,
    }
}

/// `a` is the AltStore app made from the GBox app item `g`: the icon is the
/// image where that is a URL (else `https://example.com/`), the release date
/// is the update time where it is RFC 3339 (else the moment of conversion),
/// the release is the package URL with size 0.
pub open spec fn app_from_gbox(g: ItemApplication, a: Application) -> bool {
    &&& a.name == g.base.name
    &&& a.bundle_identifier@ == "org.example.app"@
    &&& a.marketplace_id is None
    &&& a.developer_name@ == Seq::<char>::empty()
    &&& a.subtitle is None
    &&& a.localized_description == g.base.description
    &&& (match g.base.image.0 {
        Some(GboxLink::Url(u)) => a.icon_url == u,
        _ => a.icon_url@ == "https://example.com/"@,
    })
    &&& a.tint_color is None
    &&& a.category is None
    &&& a.screenshot_asset is None
    &&& (a.version_asset matches VersionAsset::Single { version, date, description, download_url, size }
        && version@ == (match g.base.version {
            Some(v) => v@,
            None => Seq::<char>::empty(),
        })
        && (rfc3339_instant(g.base.update_time@) matches Some(k) ==> date.key() == k)
        && description is None
        && g.link == Some(GboxLink::Url(download_url))
        && size == 0)
    &&& a.permissions.0 is None
    &&& a.patreon is None
    &&& !a.beta
}

impl Version {
    /// The AltStore release made from a SideStore release.
    pub fn from_sidestore(s: sidestore::application::Version) -> (res: Version)
        ensures
            version_from_sidestore(s, res),
    {
        Version {
            version: s.version,
            build_version: s.build_version,
            marketing_version: None,
            date: s.date,
            localized_description: s.localized_description,
            download_url: s.download_url,
            size: s.size,
            sha256: s.sha256,
            assets_urls: None,
            minos_version: s.minos_version,
            maxos_version: s.maxos_version,
        }
    }
}

impl VersionAsset {
    /// The AltStore release list made from a SideStore download asset; release
    /// tracks have no counterpart.
    pub fn try_from_sidestore(s: sidestore::application::DownloadAsset) -> (res: Result<VersionAsset, ConversionError>)
        ensures
            match res {
                Ok(a) => asset_from_sidestore(s, a),
                Err(e) => s is Tracks && e == ConversionError::MissingVersionAsset,
            },
    {
        match s {
            sidestore::application::DownloadAsset::Tracks { .. } => Err(ConversionError::MissingVersionAsset),
            sidestore::application::DownloadAsset::SingleVersion { version, date, description, download_url, size } => Ok(
                VersionAsset::Single { version, date, description, download_url, size },
            ),
            sidestore::application::DownloadAsset::Multiple { versions } => {
                let ghost src = versions@;
                let n = versions.len();
                let mut out: Vec<Version> = Vec::new();
                let mut rest = reversed(versions);
                let mut i: usize = 0;
                while rest.len() > 0
                    invariant
                        i + rest@.len() == n,
                        n == src.len(),
                        forall|k: int| 0 <= k < rest@.len() ==> #[trigger] rest@[k] == src[src.len() - 1 - k],
                        versions_from_sidestore(src.subrange(0, i as int), out@),
                    decreases rest@.len(),
                {
                    let v = rest.pop().unwrap();
                    let ghost before = out@;
                    out.push(Version::from_sidestore(v));
                    proof {
                        assert(v == src[i as int]);
                        assert(src.subrange(0, i + 1)[i as int] == src[i as int]);
                        assert forall|k: int| 0 <= k < i + 1 implies #[trigger] version_from_sidestore(src.subrange(0, i + 1)[k], out@[k]) by {
                            if k < i {
                                assert(src.subrange(0, i + 1)[k] == src.subrange(0, i as int)[k]);
                                assert(out@[k] == before[k]);
                            }
                        }
                    }
                    i = i + 1;
                }
                proof {
                    assert(src.subrange(0, src.len() as int) =~= src);
                }
                Ok(VersionAsset::Multiple { versions: out })
            },
        }
    }
}

impl Application {
    /// The AltStore app made from a SideStore app; an app with release tracks
    /// has no counterpart.
    pub fn try_from_sidestore(app: sidestore::application::Application) -> (res: Result<Application, ConversionError>)
        ensures
            match res {
                Ok(a) => app_from_sidestore(app, a),
                Err(e) => app.download_asset is Tracks && e == ConversionError::MissingVersionAsset,
            },
    {
        let version_asset = match VersionAsset::try_from_sidestore(app.download_asset) {
            Ok(v) => v,
            Err(e) => return Err(e),
        };
        Ok(Application {
            name: app.name,
            bundle_identifier: app.bundle_identifier,
            marketplace_id: app.marketplace_id,
            developer_name: app.developer_name,
            subtitle: app.subtitle,
            localized_description: app.localized_description,
            icon_url: app.icon_url,
            tint_color: app.tint_color,
            category: app.category,
            screenshot_asset: app.screenshot_asset,
            version_asset,
            permissions: app.permissions,
            patreon: None,
            beta: app.beta,
        })
    }

    /// The AltStore app made from a GBox item: app items only (signed by the
    /// user, by an enterprise certificate, or from the App Store), and only
    /// where the package link is a URL.
    pub fn from_gbox_item(item: Item) -> (res: Result<Application, ConversionError>)
        ensures
            match res {
                Ok(a) => gbox_item_converts(item) && app_from_gbox(gbox_item_application(item), a),
                Err(e) => !gbox_item_converts(item) && e == gbox_item_error(item),
            },
    {
        match item {
            Item::SelfSign(app) | Item::EnterpriseSign(app) => Application::from_gbox_application(app),
            Item::Shareing(s) => Application::from_gbox_application(
                ItemApplication { base: s.base, link: s.link, ext_info_link: s.ext_info_link },
            ),
            _ => Err(ConversionError::UnsupportedItemType),
        }
    }

    /// The AltStore app made from a GBox app item, where its package link is a URL.
    pub fn from_gbox_application(app_item: ItemApplication) -> (res: Result<Application, ConversionError>)
        ensures
            match res {
                Ok(a) => app_item.link matches Some(GboxLink::Url(_)) && app_from_gbox(app_item, a),
                Err(e) => !(app_item.link matches Some(GboxLink::Url(_))) && e == ConversionError::InvalidOrMissingUrl,
            },
    {
        let ghost g = app_item;
        let base = app_item.base;
        let icon_url = match base.image.0 {
            Some(GboxLink::Url(u)) => u,
            _ => Url::example(),
        };
        let date = match parse_rfc3339(base.update_time.as_str()) {
            Some(d) => d,
            None => DateTime::now(),
        };
        let download_url = match app_item.link {
            Some(GboxLink::Url(u)) => u,
            _ => return Err(ConversionError::InvalidOrMissingUrl),
        };
        let version = match base.version {
            Some(v) => v,
            None => String::new(),
        };
        let version_asset = VersionAsset::Single { version, date, description: None, download_url, size: 0 };
        Ok(Application {
            name: base.name,
            bundle_identifier: "org.example.app".to_owned(),
            marketplace_id: None,
            developer_name: String::new(),
            subtitle: None,
            localized_description: base.description,
            icon_url,
            tint_color: None,
            category: None,
            screenshot_asset: None,
            version_asset,
            permissions: OptionalPermissions(None),
            patreon: None,
            beta: false,
        })
    }
}

} // verus!
