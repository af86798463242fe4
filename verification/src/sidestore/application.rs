//! Apps of SideStore sources.
use vstd::prelude::*;
use crate::altstore;
use crate::altstore::application::{Category, Patreon, ScreenshotAsset};
use crate::error::ConversionError;
use crate::gbox::gbox_link::GboxLink;
use crate::gbox::unencrypted::{Item, ItemApplication};
use crate::instant::{parse_rfc3339, rfc3339_instant};
use crate::pairs::reversed;
use crate::altstore::color::AltStoreColor;
use crate::altstore::permissions::OptionalPermissions;
use crate::instant::{latest_index, latest_position, lemma_latest_index, DateTime};
use crate::web_url::Url;

verus! {

/// An app of a SideStore source.
#[derive(Debug)]
pub struct Application {
    pub name: String,
    pub bundle_identifier: String,
    pub developer_name: String,
    pub localized_description: String,
    pub icon_url: Url,
    pub subtitle: Option<String>,
    pub marketplace_id: Option<String>,
    pub tint_color: Option<AltStoreColor>,
    pub category: Option<Category>,
    pub screenshot_asset: Option<ScreenshotAsset>,
    pub permissions: OptionalPermissions,
    /// Download URLs by platform; a platform occurs at most once.
    pub platforms_urls: Option<Vec<PlatformUrl>>,
    pub patreon: Option<Patreon>,
    pub download_asset: DownloadAsset,
    pub beta: bool,
}

/// The download URL of an app for one platform.
#[derive(Debug)]
pub struct PlatformUrl {
    pub platform: Platform,
    pub download_url: Url,
}

impl PlatformUrl {
    /// Platform URLs are the same entry of a set when their platforms are equal.
    pub fn eq(&self, other: &PlatformUrl) -> (res: bool)
        ensures
            res == (self.platform == other.platform),
    {
        match (self.platform, other.platform) {
            (Platform::Ios, Platform::Ios) => true,
            (Platform::Tvos, Platform::Tvos) => true,
            (Platform::Macos, Platform::Macos) => true,
            _ => false,
        }
    }
}

/// The platform URLs with each platform once: the first URL of a platform is
/// kept, later ones give way, as when they are gathered in a set.
pub open spec fn first_per_platform(urls: Seq<PlatformUrl>) -> Seq<PlatformUrl>
    decreases urls.len(),
{
    if urls.len() == 0 {
        Seq::empty()
    } else {
        let before = first_per_platform(urls.drop_last());
        if exists|i: int| 0 <= i < before.len() && #[trigger] before[i].platform == urls.last().platform {
            before
        } else {
            before.push(urls.last())
        }
    }
}

/// No platform occurs twice.
pub open spec fn platforms_distinct(urls: Seq<PlatformUrl>) -> bool {
    forall|i: int, j: int| 0 <= i < j < urls.len() ==> #[trigger] urls[i].platform != #[trigger] urls[j].platform
}

/// The URLs kept per platform have distinct platforms.
pub proof fn lemma_first_per_platform(urls: Seq<PlatformUrl>)
    ensures
        platforms_distinct(first_per_platform(urls)),
    decreases urls.len(),
{
    if urls.len() > 0 {
        lemma_first_per_platform(urls.drop_last());
    }
}

impl PlatformUrl {
    /// The URLs with each platform once, the first URL of a platform kept.
    pub fn unique_platforms(urls: Vec<PlatformUrl>) -> (res: Vec<PlatformUrl>)
        ensures
            res@ == first_per_platform(urls@),
            platforms_distinct(res@),
    {
        let ghost src = urls@;
        let n = urls.len();
        let mut out: Vec<PlatformUrl> = Vec::new();
        let mut rest = reversed(urls);
        let mut i: usize = 0;
        while rest.len() > 0
            invariant
                i + rest@.len() == n,
                n == src.len(),
                forall|k: int| 0 <= k < rest@.len() ==> #[trigger] rest@[k] == src[src.len() - 1 - k],
                out@ == first_per_platform(src.subrange(0, i as int)),
            decreases rest@.len(),
        {
            let url = rest.pop().unwrap();
            proof {
                assert(url == src[i as int]);
                let next = src.subrange(0, i + 1);
                assert(next.drop_last() =~= src.subrange(0, i as int));
                assert(next.last() == url);
            }
            let mut seen = false;
            let mut j: usize = 0;
            while j < out.len()
                invariant
                    j <= out@.len(),
                    seen == (exists|k: int| 0 <= k < j && #[trigger] out@[k].platform == url.platform),
                decreases out@.len() - j,
            {
                if out[j].eq(&url) {
                    seen = true;
                }
                j = j + 1;
            }
            if !seen {
                out.push(url);
            }
            i = i + 1;
        }
        proof {
            assert(src.subrange(0, src.len() as int) =~= src);
            lemma_first_per_platform(src);
        }
        out
    }
}

/// A platform that an app runs on.
#[derive(Debug, Clone, Copy, PartialEq, Eq, Hash)]
pub enum Platform {
    Ios,
    Tvos,
    Macos,
}

/// A named track of releases.
#[derive(Debug)]
pub struct ReleaseTrack {
    pub track: String,
    pub releases: Vec<Version>,
}

/// A release of an app.
#[derive(Debug)]
pub struct Version {
    pub version: String,
    pub build_version: Option<String>,
    pub date: DateTime,
    pub localized_description: Option<String>,
    pub download_url: Url,
    pub size: u64,
    pub sha256: Option<String>,
    pub minos_version: Option<String>,
    pub maxos_version: Option<String>,
}

/// The releases of an app: by track, a list, or one release written in the app itself.
#[derive(Debug)]
pub enum DownloadAsset {
    Tracks { tracks: Vec<ReleaseTrack> },
    Multiple { versions: Vec<Version> },
    SingleVersion { version: String, date: DateTime, description: Option<String>, download_url: Url, size: i32 },
}

/// The release dates of a list of releases.
pub open spec fn version_dates(versions: Seq<Version>) -> Seq<DateTime> {
    versions.map_values(|v: Version| v.date)
}

/// The dates of releases, in order.
fn dates_of(versions: &Vec<Version>) -> (res: Vec<DateTime>)
    ensures
        res@ == version_dates(versions@),
{
    let mut res: Vec<DateTime> = Vec::new();
    let mut i: usize = 0;
    while i < versions.len()
        invariant
            i <= versions@.len(),
            res@ == version_dates(versions@).subrange(0, i as int),
        decreases versions@.len() - i,
    {
        res.push(versions[i].date);
        proof {
            assert(res@ =~= version_dates(versions@).subrange(0, i + 1));
        }
        i = i + 1;
    }
    proof {
        assert(version_dates(versions@).subrange(0, versions@.len() as int) =~= version_dates(versions@));
    }
    res
}

impl DownloadAsset {
    /// The date, download URL and version number of the newest release; none
    /// for release tracks.
    pub open spec fn newest_release(self) -> Option<(DateTime, Url, String)> {
        match self {
            DownloadAsset::Tracks { .. } => None,
            DownloadAsset::Multiple { versions } => match latest_index(version_dates(versions@)) {
                Some(i) => Some((versions@[i].date, versions@[i].download_url, versions@[i].version)),
                None => None,
            },
            DownloadAsset::SingleVersion { version, date, download_url, .. } => Some((date, download_url, version)),
        }
    }

    /// The date of the newest release; none for release tracks.
    pub fn date_for_newest(&self) -> (res: Option<DateTime>)
        ensures
            match self {
                DownloadAsset::Tracks { .. } => res is None,
                DownloadAsset::Multiple { versions } => match latest_index(version_dates(versions@)) {
                    Some(i) => res == Some(versions@[i].date),
                    None => res is None,
                },
                DownloadAsset::SingleVersion { date, .. } => res == Some(*date),
            },
    {
        match self {
            DownloadAsset::Tracks { .. } => None,
            DownloadAsset::Multiple { versions } => {
                let dates = dates_of(versions);
                proof {
                    lemma_latest_index(version_dates(versions@));
                }
                match latest_position(&dates) {
                    Some(i) => Some(versions[i].date),
                    None => None,
                }
            },
            DownloadAsset::SingleVersion { date, .. } => Some(*date),
        }
    }

    /// The download URL of the newest release; none for release tracks.
    pub fn url_for_newest(&self) -> (res: Option<&Url>)
        ensures
            match self {
                DownloadAsset::Tracks { .. } => res is None,
                DownloadAsset::Multiple { versions } => match latest_index(version_dates(versions@)) {
                    Some(i) => res == Some(&versions@[i].download_url),
                    None => res is None,
                },
                DownloadAsset::SingleVersion { download_url, .. } => res == Some(download_url),
            },
    {
        match self {
            DownloadAsset::Tracks { .. } => None,
            DownloadAsset::Multiple { versions } => {
                let dates = dates_of(versions);
                proof {
                    lemma_latest_index(version_dates(versions@));
                }
                match latest_position(&dates) {
                    Some(i) => Some(&versions[i].download_url),
                    None => None,
                }
            },
            DownloadAsset::SingleVersion { download_url, .. } => Some(download_url),
        }
    }

    /// The version number of the newest release; none for release tracks.
    pub fn newest_version_str(&self) -> (res: Option<&String>)
        ensures
            match self {
                DownloadAsset::Tracks { .. } => res is None,
                DownloadAsset::Multiple { versions } => match latest_index(version_dates(versions@)) {
                    Some(i) => res == Some(&versions@[i].version),
                    None => res is None,
                },
                DownloadAsset::SingleVersion { version, .. } => res == Some(version),
            },
    {
        match self {
            DownloadAsset::Tracks { .. } => None,
            DownloadAsset::Multiple { versions } => {
                let dates = dates_of(versions);
                proof {
                    lemma_latest_index(version_dates(versions@));
                }
                match latest_position(&dates) {
                    Some(i) => Some(&versions[i].version),
                    None => None,
                }
            },
            DownloadAsset::SingleVersion { version, .. } => Some(version),
        }
    }
}

/// `s` is the SideStore release made from the AltStore release `a`.
pub open spec fn version_from_altstore(a: altstore::application::Version, s: Version) -> bool {
    &&& s.version == a.version
    &&& s.build_version == a.build_version
    &&& s.date == a.date
    &&& s.localized_description == a.localized_description
    &&& s.download_url == a.download_url
    &&& s.size == a.size
    &&& s.sha256 == a.sha256
    &&& s.minos_version == a.minos_version
    &&& s.maxos_version == a.maxos_version
}

/// Each release of `s` is made from the AltStore release at its position in `a`.
pub open spec fn versions_from_altstore(a: Seq<altstore::application::Version>, s: Seq<Version>) -> bool {
    a.len() == s.len() && forall|i: int| 0 <= i < a.len() ==> #[trigger] version_from_altstore(a[i], s[i])
}

/// `s` is the SideStore download asset made from the AltStore release list `a`.
pub open spec fn asset_from_altstore(a: altstore::application::VersionAsset, s: DownloadAsset) -> bool {
    match a {
        altstore::application::VersionAsset::Multiple { versions } => s matches DownloadAsset::Multiple { versions: sv }
            && versions_from_altstore(versions@, sv@),
        altstore::application::VersionAsset::Single { version, date, description, download_url, size } =>
            s == (DownloadAsset::SingleVersion { version, date, description, download_url, size }),
    }
}

/// `s` is the SideStore app made from the AltStore app `a`.
pub open spec fn app_from_altstore(a: altstore::application::Application, s: Application) -> bool {
    &&& s.name == a.name
    &&& s.bundle_identifier == a.bundle_identifier
    &&& s.developer_name == a.developer_name
    &&& s.localized_description == a.localized_description
    &&& s.icon_url == a.icon_url
    &&& s.subtitle == a.subtitle
    &&& s.marketplace_id == a.marketplace_id
    &&& s.tint_color == a.tint_color
    &&& s.category == a.category
    &&& s.screenshot_asset == a.screenshot_asset
    &&& s.permissions == a.permissions
    &&& s.platforms_urls is None
    &&& s.patreon == a.patreon
    &&& asset_from_altstore(a.version_asset, s.download_asset)
    &&& s.beta == a.beta
}

/// `s` is the SideStore app made from the GBox app item `g`: the icon is the
/// image where that is a URL (else `https://example.com/`), the release date
/// is the update time where it is RFC 3339 (else the moment of conversion),
/// the release is the package URL with size 0.
pub open spec fn app_from_gbox(g: ItemApplication, s: Application) -> bool {
    &&& s.name == g.base.name
    &&& s.bundle_identifier@ == "org.example.app"@
    &&& s.developer_name@ == Seq::<char>::empty()
    &&& s.localized_description == g.base.description
    &&& (match g.base.image.0 {
        Some(GboxLink::Url(u)) => s.icon_url == u,
        _ => s.icon_url@ == "https://example.com/"@,
    })
    &&& s.subtitle is None
    &&& s.marketplace_id is None
    &&& s.tint_color is None
    &&& s.category is None
    &&& s.screenshot_asset is None
    &&& s.permissions.0 is None
    &&& s.platforms_urls is None
    &&& s.patreon is None
    &&& (s.download_asset matches DownloadAsset::SingleVersion { version, date, description, download_url, size }
        && version@ == (match g.base.version {
            Some(v) => v@,
            None => Seq::<char>::empty(),
        })
        && (rfc3339_instant(g.base.update_time@) matches Some(k) ==> date.key() == k)
        && description is None
        && g.link == Some(GboxLink::Url(download_url))
        && size == 0)
    &&& !s.beta
}

/// An app made from a GBox app item, for AltStore or for SideStore, carries
/// the item's name and description, and one release that downloads the
/// item's package URL under the item's version (empty where it has none).
pub proof fn law_gbox_app_keeps_item(g: ItemApplication, a: altstore::application::Application, s: Application)
    ensures
        altstore::application::app_from_gbox(g, a) ==> {
            &&& a.name == g.base.name
            &&& a.localized_description == g.base.description
            &&& a.version_asset matches altstore::application::VersionAsset::Single { version, download_url, .. }
            &&& g.link == Some(GboxLink::Url(download_url))
            &&& (g.base.version matches Some(v) ==> version@ == v@)
            &&& (g.base.version is None ==> version@.len() == 0)
        },
        app_from_gbox(g, s) ==> {
            &&& s.name == g.base.name
            &&& s.localized_description == g.base.description
            &&& s.download_asset matches DownloadAsset::SingleVersion { version, download_url, .. }
            &&& g.link == Some(GboxLink::Url(download_url))
            &&& (g.base.version matches Some(v) ==> version@ == v@)
            &&& (g.base.version is None ==> version@.len() == 0)
        },
{
}

impl Version {
    /// The SideStore release made from an AltStore release.
    pub fn from_altstore(a: altstore::application::Version) -> (res: Version)
        ensures
            version_from_altstore(a, res),
    {
        Version {
            version: a.version,
            build_version: a.build_version,
            date: a.date,
            localized_description: a.localized_description,
            download_url: a.download_url,
            size: a.size,
            sha256: a.sha256,
            minos_version: a.minos_version,
            maxos_version: a.maxos_version,
        }
    }
}

impl DownloadAsset {
    /// The SideStore download asset made from an AltStore release list.
    pub fn from_altstore(a: altstore::application::VersionAsset) -> (res: DownloadAsset)
        ensures
            asset_from_altstore(a, res),
    {
        match a {
            altstore::application::VersionAsset::Single { version, date, description, download_url, size } =>
                DownloadAsset::SingleVersion { version, date, description, download_url, size },
            altstore::application::VersionAsset::Multiple { versions } => {
                let ghost src = versions@;
                let n = versions.len();
                let mut out: Vec<Version> = Vec::new();
                let mut rest = reversed(versions);
                let mut i: usize = 0;
                while rest.len() > 0
                    invariant
                        i + rest@.len() == n,
                        n == src.len(),
                        forall|k: int| 0 <= k < rest@.len() ==> #[trigger] rest@[k] == src[src.len() - 1 - k],
                        versions_from_altstore(src.subrange(0, i as int), out@),
                    decreases rest@.len(),
                {
                    let v = rest.pop().unwrap();
                    let ghost before = out@;
                    out.push(Version::from_altstore(v));
                    proof {
                        assert(v == src[i as int]);
                        assert forall|k: int| 0 <= k < i + 1 implies #[trigger] version_from_altstore(src.subrange(0, i + 1)[k], out@[k]) by {
                            if k < i {
                                assert(src.subrange(0, i + 1)[k] == src.subrange(0, i as int)[k]);
                                assert(out@[k] == before[k]);
                            }
                        }
                    }
                    i = i + 1;
                }
                proof {
                    assert(src.subrange(0, src.len() as int) =~= src);
                }
                DownloadAsset::Multiple { versions: out }
            },
        }
    }
}

impl Application {
    /// The SideStore app made from an AltStore app.
    pub fn from_altstore(app: altstore::application::Application) -> (res: Application)
        ensures
            app_from_altstore(app, res),
    {
        Application {
            name: app.name,
            bundle_identifier: app.bundle_identifier,
            developer_name: app.developer_name,
            localized_description: app.localized_description,
            icon_url: app.icon_url,
            subtitle: app.subtitle,
            marketplace_id: app.marketplace_id,
            tint_color: app.tint_color,
            category: app.category,
            screenshot_asset: app.screenshot_asset,
            permissions: app.permissions,
            platforms_urls: None,
            patreon: app.patreon,
            download_asset: DownloadAsset::from_altstore(app.version_asset),
            beta: app.beta,
        }
    }

    /// The SideStore app made from a GBox item: app items only (signed by the
    /// user, by an enterprise certificate, or from the App Store), and only
    /// where the package link is a URL.
    pub fn from_gbox_item(item: Item) -> (res: Result<Application, ConversionError>)
        ensures
            match res {
                Ok(s) => altstore::application::gbox_item_converts(item)
                    && app_from_gbox(altstore::application::gbox_item_application(item), s),
                Err(e) => !altstore::application::gbox_item_converts(item)
                    && e == altstore::application::gbox_item_error(item),
            },
    {
        match item {
            Item::SelfSign(app) | Item::EnterpriseSign(app) => Application::from_gbox_application(app),
            Item::Shareing(s) => Application::from_gbox_application(
                ItemApplication { base: s.base, link: s.link, ext_info_link: s.ext_info_link },
            ),
            _ => Err(ConversionError::UnsupportedItemType),
        }
    }

    /// The SideStore app made from a GBox app item, where its package link is a URL.
    pub fn from_gbox_application(app_item: ItemApplication) -> (res: Result<Application, ConversionError>)
        ensures
            match res {
                Ok(s) => app_item.link matches Some(GboxLink::Url(_)) && app_from_gbox(app_item, s),
                Err(e) => !(app_item.link matches Some(GboxLink::Url(_))) && e == ConversionError::InvalidOrMissingUrl,
            },
    {
        let base = app_item.base;
        let icon_url = match base.image.0 {
            Some(GboxLink::Url(u)) => u,
            _ => Url::example(),
        };
        let date = match parse_rfc3339(base.update_time.as_str()) {
            Some(d) => d,
            None => DateTime::now(),
        };
        let download_url = match app_item.link {
            Some(GboxLink::Url(u)) => u,
            _ => return Err(ConversionError::InvalidOrMissingUrl),
        };
        let version = match base.version {
            Some(v) => v,
            None => String::new(),
        };
        let download_asset = DownloadAsset::SingleVersion { version, date, description: None, download_url, size: 0 };
        Ok(Application {
            name: base.name,
            bundle_identifier: "org.example.app".to_owned(),
            developer_name: String::new(),
            localized_description: base.description,
            icon_url,
            subtitle: None,
            marketplace_id: None,
            tint_color: None,
            category: None,
            screenshot_asset: None,
            permissions: OptionalPermissions(None),
            platforms_urls: None,
            patreon: None,
            download_asset,
            beta: false,
        })
    }
}

} // verus!

verus! {

/// Converting an AltStore release list to SideStore keeps its newest release:
/// the same date, download URL and version number.
pub proof fn law_newest_kept_from_altstore(a: altstore::application::VersionAsset, s: DownloadAsset)
    requires
        asset_from_altstore(a, s),
    ensures
        s.newest_release() == a.newest_release(),
{
    if let altstore::application::VersionAsset::Multiple { versions } = a {
        let sv = s->Multiple_versions;
        assert(version_dates(sv@) =~= altstore::application::version_dates(versions@)) by {
            assert forall|i: int| 0 <= i < sv@.len() implies version_dates(sv@)[i] == altstore::application::version_dates(versions@)[i] by {
                assert(version_from_altstore(versions@[i], sv@[i]));
            }
        }
        if let Some(i) = latest_index(version_dates(sv@)) {
            lemma_latest_index(version_dates(sv@));
            assert(version_from_altstore(versions@[i], sv@[i]));
        }
    }
}

/// Converting a SideStore download asset to AltStore keeps its newest release:
/// the same date, download URL and version number.
pub proof fn law_newest_kept_from_sidestore(s: DownloadAsset, a: altstore::application::VersionAsset)
    requires
        altstore::application::asset_from_sidestore(s, a),
    ensures
        a.newest_release() == s.newest_release(),
{
    if let DownloadAsset::Multiple { versions } = s {
        let av = a->Multiple_versions;
        assert(altstore::application::version_dates(av@) =~= version_dates(versions@)) by {
            assert forall|i: int| 0 <= i < av@.len() implies altstore::application::version_dates(av@)[i] == version_dates(versions@)[i] by {
                assert(altstore::application::version_from_sidestore(versions@[i], av@[i]));
            }
        }
        if let Some(i) = latest_index(version_dates(versions@)) {
            lemma_latest_index(version_dates(versions@));
            assert(altstore::application::version_from_sidestore(versions@[i], av@[i]));
        }
    }
}

} // verus!
