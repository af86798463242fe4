pub mod config;
pub mod crypt_keys;
pub mod encrypted;
pub mod gbox_link;
pub mod installable_app;
pub mod kvp;
pub mod links_map;
pub mod repo_links;
pub mod schema;
pub mod unencrypted;
pub mod validation;

use vstd::prelude::*;
use crate::altstore;
use crate::altstore::application::{category_name, Category};
use crate::error::ConversionError;
use crate::gbox::gbox_link::{GboxLink, OptionalGboxLink};
use crate::gbox::schema::SchemaVersion;
use crate::gbox::unencrypted::{Item, ItemApplication, ItemBase, RepoInfo, Repository};
use crate::instant::{chrono_instant_valid, latest_of, latest_present, rfc3339_text, DateTime};
use crate::pairs::{filter_related, lemma_filter_related_step, reversed};
use crate::sidestore;
use crate::web_url::Url;

verus! {

/// A GBox repository, plain or sealed.
#[derive(Debug)]
pub enum GboxRepo {
    Plain(Repository),
    Encrypted(encrypted::Repository),
}

impl GboxRepo {
    /// What the repository says of itself.
    pub open spec fn info(self) -> RepoInfo {
        match self {
            GboxRepo::Plain(r) => r.info,
            GboxRepo::Encrypted(r) => r.info,
        }
    }

    /// Whether the repository is sealed.
    pub fn is_encrypted(&self) -> (res: bool)
        ensures
            res == (self is Encrypted),
    {
        match self {
            GboxRepo::Plain(_) => false,
            GboxRepo::Encrypted(_) => true,
        }
    }

    /// What the repository says of itself, plain or sealed.
    pub fn general_info(&self) -> (res: &RepoInfo)
        ensures
            *res == self.info(),
    {
        match self {
            GboxRepo::Plain(r) => &r.info,
            GboxRepo::Encrypted(r) => &r.info,
        }
    }
}

/// `g` is the app item made from a store app named `name`, described by
/// `description`, with the line `subtitle`, the icon `icon` and the newest
/// release `newest` (date, download URL, version number): an app that the
/// user signs, its package the download URL, its update time the release
/// date in RFC 3339.
pub open spec fn item_from_release(
    name: String,
    description: String,
    subtitle: Option<String>,
    icon: Url,
    newest: (DateTime, Url, String),
    g: ItemApplication,
) -> bool {
    &&& g.base.name == name
    &&& g.base.description == description
    &&& g.base.version == Some(newest.2)
    &&& g.base.image.0 == Some(GboxLink::Url(icon))
    &&& g.base.update_time@ == rfc3339_text(newest.0.spec_secs(), newest.0.spec_nanos())
    &&& !g.base.password_locked
    &&& !g.base.hide
    &&& g.base.detailed_info == subtitle
    &&& !g.base.force_ppq_bypass
    &&& g.link == Some(GboxLink::Url(newest.1))
    &&& g.ext_info_link is None
}

/// `g` is the app item made from the AltStore app `a`, which has a newest release.
pub open spec fn item_from_altstore(a: altstore::application::Application, g: ItemApplication) -> bool {
    a.version_asset.newest_release() matches Some(n)
        && item_from_release(a.name, a.localized_description, a.subtitle, a.icon_url, n, g)
}

/// `g` is the app item made from the SideStore app `s`, which has a newest release.
pub open spec fn item_from_sidestore(s: sidestore::application::Application, g: ItemApplication) -> bool {
    s.download_asset.newest_release() matches Some(n)
        && item_from_release(s.name, s.localized_description, s.subtitle, s.icon_url, n, g)
}

/// The app item made from a store app, given its newest release.
fn item_of_release(
    name: String,
    description: String,
    subtitle: Option<String>,
    icon: Url,
    date: DateTime,
    url: Url,
    version: String,
) -> (res: ItemApplication)
    ensures
        item_from_release(name, description, subtitle, icon, (date, url, version), res),
{
    ItemApplication {
        base: ItemBase {
            name,
            description,
            version: Some(version),
            image: OptionalGboxLink(Some(GboxLink::Url(icon))),
            update_time: date.to_rfc3339(),
            password_locked: false,
            hide: false,
            detailed_info: subtitle,
            force_ppq_bypass: false,
        },
        link: Some(GboxLink::Url(url)),
        ext_info_link: None,
    }
}

impl ItemApplication {
    /// The app item made from an AltStore app; an app without releases has none.
    pub fn try_from_altstore(app: altstore::application::Application) -> (res: Result<ItemApplication, ConversionError>)
        ensures
            match res {
                Ok(g) => item_from_altstore(app, g),
                Err(e) => app.version_asset.newest_release() is None && e == ConversionError::MissingVersionAsset,
            },
    {
        let date = app.version_asset.date_for_newest();
        let url = app.version_asset.url_for_newest();
        let version = app.version_asset.newest_version_str();
        match (date, url, version) {
            (Some(d), Some(u), Some(v)) => {
                let url = u.clone();
                let version = v.clone();
                Ok(item_of_release(app.name, app.localized_description, app.subtitle, app.icon_url, d, url, version))
            },
            _ => Err(ConversionError::MissingVersionAsset),
        }
    }

    /// The app item made from a SideStore app; an app without releases, or
    /// with release tracks, has none.
    pub fn try_from_sidestore(app: sidestore::application::Application) -> (res: Result<ItemApplication, ConversionError>)
        ensures
            match res {
                Ok(g) => item_from_sidestore(app, g),
                Err(e) => app.download_asset.newest_release() is None && e == ConversionError::MissingVersionAsset,
            },
    {
        let date = app.download_asset.date_for_newest();
        let url = app.download_asset.url_for_newest();
        let version = app.download_asset.newest_version_str();
        match (date, url, version) {
            (Some(d), Some(u), Some(v)) => {
                let url = u.clone();
                let version = v.clone();
                Ok(item_of_release(app.name, app.localized_description, app.subtitle, app.icon_url, d, url, version))
            },
            _ => Err(ConversionError::MissingVersionAsset),
        }
    }
}

} // verus!

verus! {

/// A category is given.
pub open spec fn category_given() -> spec_fn(Option<Category>) -> bool {
    |c: Option<Category>| c is Some
}

/// `s` is the name of the given category `c`.
pub open spec fn category_named() -> spec_fn(Option<Category>, String) -> bool {
    |c: Option<Category>, s: String| c matches Some(k) && s@ == category_name(k)
}

/// The names of the given categories, in order.
fn category_names(cats: &Vec<Option<Category>>) -> (res: Vec<String>)
    ensures
        filter_related(cats@, res@, category_given(), category_named()),
{
    let mut res: Vec<String> = Vec::new();
    let mut i: usize = 0;
    while i < cats.len()
        invariant
            i <= cats@.len(),
            filter_related(cats@.subrange(0, i as int), res@, category_given(), category_named()),
        decreases cats@.len() - i,
    {
        match cats[i] {
            Some(c) => {
                let name = c.to_string();
                proof {
                    lemma_filter_related_step(cats@, res@, i as int, category_given(), category_named(), name);
                }
                res.push(name);
            },
            None => {
                proof {
                    lemma_filter_related_step(cats@, res@, i as int, category_given(), category_named(), arbitrary());
                }
            },
        }
        i = i + 1;
    }
    proof {
        assert(cats@.subrange(0, cats@.len() as int) =~= cats@);
    }
    res
}

/// The text of an optional text, empty where there is none.
pub open spec fn text_or_empty(o: Option<String>) -> Seq<char> {
    match o {
        Some(s) => s@,
        None => Seq::empty(),
    }
}

/// `info` is what a repository made from a store source says of itself: the
/// source's name, the author `author`, the icon URL (empty where there is
/// none), the description (empty where there is none), no link title, the
/// website (else `https://example.com/`), the date of the newest release of all
/// apps in RFC 3339 (where no app has a release, that of an instant chrono
/// represents: the moment of conversion), and
/// no unlock hash, processor or export setting.
pub open spec fn info_from_source(
    name: String,
    author: Seq<char>,
    icon: Option<Url>,
    description: Option<String>,
    website: Option<Url>,
    newest: Option<DateTime>,
    info: RepoInfo,
) -> bool {
    &&& info.name == name
    &&& info.author@ == author
    &&& info.icon_image_url@ == (match icon {
        Some(u) => u@,
        None => Seq::empty(),
    })
    &&& info.description@ == text_or_empty(description)
    &&& info.link_title@ == Seq::<char>::empty()
    &&& (match website {
        Some(u) => info.link_url == u,
        None => info.link_url@ == "https://example.com/"@,
    })
    &&& match newest {
        Some(d) => info.update_time@ == rfc3339_text(d.spec_secs(), d.spec_nanos()),
        None => exists|secs: i64, nanos: u32|
            chrono_instant_valid(secs, nanos) && #[trigger] rfc3339_text(secs, nanos) == info.update_time@,
    }
    &&& info.items_unlock_hash is None
    &&& info.source_processor is None
    &&& info.export_enable is None
}

/// The repository information made from a store source's fields.
fn info_of_source(
    name: String,
    author: String,
    icon: Option<Url>,
    description: Option<String>,
    website: Option<Url>,
    newest: Option<DateTime>,
) -> (res: RepoInfo)
    ensures
        info_from_source(name, author@, icon, description, website, newest, res),
{
    let updated_at = match newest {
        Some(d) => d,
        None => DateTime::now(),
    };
    let update_time = updated_at.to_rfc3339();
    proof {
        if newest is None {
            assert(chrono_instant_valid(updated_at.spec_secs(), updated_at.spec_nanos()));
            assert(rfc3339_text(updated_at.spec_secs(), updated_at.spec_nanos()) == update_time@);
        }
    }
    RepoInfo {
        name,
        author,
        icon_image_url: match icon {
            Some(u) => u.into_string(),
            None => String::new(),
        },
        description: match description {
            Some(d) => d,
            None => String::new(),
        },
        link_title: String::new(),
        link_url: match website {
            Some(u) => u,
            None => Url::example(),
        },
        update_time,
        items_unlock_hash: None,
        source_processor: None,
        export_enable: None,
    }
}

} // verus!

verus! {

/// The category of each AltStore app, in order.
pub open spec fn altstore_categories(apps: Seq<altstore::application::Application>) -> Seq<Option<Category>> {
    apps.map_values(|a: altstore::application::Application| a.category)
}

/// The date of the newest release of each AltStore app, in order.
pub open spec fn altstore_newest_dates(apps: Seq<altstore::application::Application>) -> Seq<Option<DateTime>> {
    apps.map_values(
        |a: altstore::application::Application|
            match a.version_asset.newest_release() {
                Some(n) => Some(n.0),
                None => None,
            },
    )
}

/// An AltStore app has a newest release, so that it can be made an app item.
pub open spec fn altstore_converts() -> spec_fn(altstore::application::Application) -> bool {
    |a: altstore::application::Application| a.version_asset.newest_release() is Some
}

/// `i` is the self-signed app item made from the AltStore app `a`.
pub open spec fn self_signed_from_altstore() -> spec_fn(altstore::application::Application, Item) -> bool {
    |a: altstore::application::Application, i: Item| i matches Item::SelfSign(g) && item_from_altstore(a, g)
}

/// `r` is the GBox repository made from the AltStore source `a`: the author
/// is the source's account name, the categories are those of the apps that
/// have one, in order, and the items are the apps that have a release, in
/// order, each to be signed by the user.
pub open spec fn repo_from_altstore(a: altstore::Repository, r: Repository) -> bool {
    &&& r.schema_version@ == "1.1.2"@
    &&& info_from_source(
        a.name,
        text_or_empty(a.fedi_username),
        a.icon_url,
        a.description,
        a.website,
        latest_present(altstore_newest_dates(a.app_list())),
        r.info,
    )
    &&& filter_related(altstore_categories(a.app_list()), r.categories@, category_given(), category_named())
    &&& filter_related(a.app_list(), r.applications@, altstore_converts(), self_signed_from_altstore())
}

/// The category of each AltStore app.
fn categories_of_altstore(apps: &Vec<altstore::application::Application>) -> (res: Vec<Option<Category>>)
    ensures
        res@ == altstore_categories(apps@),
{
    let mut res: Vec<Option<Category>> = Vec::new();
    let mut i: usize = 0;
    while i < apps.len()
        invariant
            i <= apps@.len(),
            res@ == altstore_categories(apps@.subrange(0, i as int)),
        decreases apps@.len() - i,
    {
        res.push(apps[i].category);
        proof {
            assert(res@ =~= altstore_categories(apps@.subrange(0, i + 1)));
        }
        i = i + 1;
    }
    proof {
        assert(apps@.subrange(0, apps@.len() as int) =~= apps@);
    }
    res
}

/// The date of the newest release of each AltStore app.
fn newest_dates_of_altstore(apps: &Vec<altstore::application::Application>) -> (res: Vec<Option<DateTime>>)
    ensures
        res@ == altstore_newest_dates(apps@),
{
    let mut res: Vec<Option<DateTime>> = Vec::new();
    let mut i: usize = 0;
    while i < apps.len()
        invariant
            i <= apps@.len(),
            res@ == altstore_newest_dates(apps@.subrange(0, i as int)),
        decreases apps@.len() - i,
    {
        res.push(apps[i].version_asset.date_for_newest());
        proof {
            assert(res@ =~= altstore_newest_dates(apps@.subrange(0, i + 1)));
        }
        i = i + 1;
    }
    proof {
        assert(apps@.subrange(0, apps@.len() as int) =~= apps@);
    }
    res
}

/// The self-signed app items made from the AltStore apps that have a release.
fn items_of_altstore(apps: Vec<altstore::application::Application>) -> (res: Vec<Item>)
    ensures
        filter_related(apps@, res@, altstore_converts(), self_signed_from_altstore()),
{
    let ghost src = apps@;
    let n = apps.len();
    let mut out: Vec<Item> = Vec::new();
    let mut rest = reversed(apps);
    let mut i: usize = 0;
    while rest.len() > 0
        invariant
            i + rest@.len() == n,
            n == src.len(),
            forall|k: int| 0 <= k < rest@.len() ==> #[trigger] rest@[k] == src[src.len() - 1 - k],
            filter_related(src.subrange(0, i as int), out@, altstore_converts(), self_signed_from_altstore()),
        decreases rest@.len(),
    {
        let app = rest.pop().unwrap();
        proof {
            assert(app == src[i as int]);
        }
        match ItemApplication::try_from_altstore(app) {
            Ok(g) => {
                let item = Item::SelfSign(g);
                proof {
                    lemma_filter_related_step(src, out@, i as int, altstore_converts(), self_signed_from_altstore(), item);
                }
                out.push(item);
            },
            Err(_) => {
                proof {
                    lemma_filter_related_step(src, out@, i as int, altstore_converts(), self_signed_from_altstore(), arbitrary());
                }
            },
        }
        i = i + 1;
    }
    proof {
        assert(src.subrange(0, src.len() as int) =~= src);
    }
    out
}

impl Repository {
    /// The plain GBox repository made from an AltStore source.
    pub fn from_altstore(repo: altstore::Repository) -> (res: Repository)
        ensures
            repo_from_altstore(repo, res),
    {
        let ghost a = repo;
        let apps = match repo.apps {
            Some(v) => v,
            None => Vec::new(),
        };
        proof {
            assert(apps@ == a.app_list());
        }
        let categories = category_names(&categories_of_altstore(&apps));
        let newest = latest_of(&newest_dates_of_altstore(&apps));
        let author = match repo.fedi_username {
            Some(f) => f,
            None => String::new(),
        };
        let info = info_of_source(repo.name, author, repo.icon_url, repo.description, repo.website, newest);
        let applications = items_of_altstore(apps);
        Repository { schema_version: SchemaVersion::current(), info, categories, applications }
    }
}

impl GboxRepo {
    /// The plain GBox repository made from an AltStore source.
    pub fn from_altstore(repo: altstore::Repository) -> (res: GboxRepo)
        ensures
            res matches GboxRepo::Plain(r) && repo_from_altstore(repo, r),
    {
        GboxRepo::Plain(Repository::from_altstore(repo))
    }
}

} // verus!

verus! {

/// The category of each SideStore app, in order.
pub open spec fn sidestore_categories(apps: Seq<sidestore::application::Application>) -> Seq<Option<Category>> {
    apps.map_values(|a: sidestore::application::Application| a.category)
}

/// The date of the newest release of each SideStore app, in order.
pub open spec fn sidestore_newest_dates(apps: Seq<sidestore::application::Application>) -> Seq<Option<DateTime>> {
    apps.map_values(
        |a: sidestore::application::Application|
            match a.download_asset.newest_release() {
                Some(n) => Some(n.0),
                None => None,
            },
    )
}

/// An SideStore app has a newest release, so that it can be made an app item.
pub open spec fn sidestore_converts() -> spec_fn(sidestore::application::Application) -> bool {
    |a: sidestore::application::Application| a.download_asset.newest_release() is Some
}

/// `i` is the self-signed app item made from the SideStore app `a`.
pub open spec fn self_signed_from_sidestore() -> spec_fn(sidestore::application::Application, Item) -> bool {
    |a: sidestore::application::Application, i: Item| i matches Item::SelfSign(g) && item_from_sidestore(a, g)
}

/// `r` is the GBox repository made from the SideStore source `a`: there is
/// no author, the categories are those of the apps that
/// have one, in order, and the items are the apps that have a release, in
/// order, each to be signed by the user.
pub open spec fn repo_from_sidestore(a: sidestore::Repository, r: Repository) -> bool {
    &&& r.schema_version@ == "1.1.2"@
    &&& info_from_source(
        a.name,
        Seq::empty(),
        a.icon_url,
        a.description,
        a.website,
        latest_present(sidestore_newest_dates(a.app_list())),
        r.info,
    )
    &&& filter_related(sidestore_categories(a.app_list()), r.categories@, category_given(), category_named())
    &&& filter_related(a.app_list(), r.applications@, sidestore_converts(), self_signed_from_sidestore())
}

/// The category of each SideStore app.
fn categories_of_sidestore(apps: &Vec<sidestore::application::Application>) -> (res: Vec<Option<Category>>)
    ensures
        res@ == sidestore_categories(apps@),
{
    let mut res: Vec<Option<Category>> = Vec::new();
    let mut i: usize = 0;
    while i < apps.len()
        invariant
            i <= apps@.len(),
            res@ == sidestore_categories(apps@.subrange(0, i as int)),
        decreases apps@.len() - i,
    {
        res.push(apps[i].category);
        proof {
            assert(res@ =~= sidestore_categories(apps@.subrange(0, i + 1)));
        }
        i = i + 1;
    }
    proof {
        assert(apps@.subrange(0, apps@.len() as int) =~= apps@);
    }
    res
}

/// The date of the newest release of each SideStore app.
fn newest_dates_of_sidestore(apps: &Vec<sidestore::application::Application>) -> (res: Vec<Option<DateTime>>)
    ensures
        res@ == sidestore_newest_dates(apps@),
{
    let mut res: Vec<Option<DateTime>> = Vec::new();
    let mut i: usize = 0;
    while i < apps.len()
        invariant
            i <= apps@.len(),
            res@ == sidestore_newest_dates(apps@.subrange(0, i as int)),
        decreases apps@.len() - i,
    {
        res.push(apps[i].download_asset.date_for_newest());
        proof {
            assert(res@ =~= sidestore_newest_dates(apps@.subrange(0, i + 1)));
        }
        i = i + 1;
    }
    proof {
        assert(apps@.subrange(0, apps@.len() as int) =~= apps@);
    }
    res
}

/// The self-signed app items made from the SideStore apps that have a release.
fn items_of_sidestore(apps: Vec<sidestore::application::Application>) -> (res: Vec<Item>)
    ensures
        filter_related(apps@, res@, sidestore_converts(), self_signed_from_sidestore()),
{
    let ghost src = apps@;
    let n = apps.len();
    let mut out: Vec<Item> = Vec::new();
    let mut rest = reversed(apps);
    let mut i: usize = 0;
    while rest.len() > 0
        invariant
            i + rest@.len() == n,
            n == src.len(),
            forall|k: int| 0 <= k < rest@.len() ==> #[trigger] rest@[k] == src[src.len() - 1 - k],
            filter_related(src.subrange(0, i as int), out@, sidestore_converts(), self_signed_from_sidestore()),
        decreases rest@.len(),
    {
        let app = rest.pop().unwrap();
        proof {
            assert(app == src[i as int]);
        }
        match ItemApplication::try_from_sidestore(app) {
            Ok(g) => {
                let item = Item::SelfSign(g);
                proof {
                    lemma_filter_related_step(src, out@, i as int, sidestore_converts(), self_signed_from_sidestore(), item);
                }
                out.push(item);
            },
            Err(_) => {
                proof {
                    lemma_filter_related_step(src, out@, i as int, sidestore_converts(), self_signed_from_sidestore(), arbitrary());
                }
            },
        }
        i = i + 1;
    }
    proof {
        assert(src.subrange(0, src.len() as int) =~= src);
    }
    out
}

impl Repository {
    /// The plain GBox repository made from a SideStore source.
    pub fn from_sidestore(repo: sidestore::Repository) -> (res: Repository)
        ensures
            repo_from_sidestore(repo, res),
    {
        let ghost a = repo;
        let apps = match repo.apps {
            Some(v) => v,
            None => Vec::new(),
        };
        proof {
            assert(apps@ == a.app_list());
        }
        let categories = category_names(&categories_of_sidestore(&apps));
        let newest = latest_of(&newest_dates_of_sidestore(&apps));
        let info = info_of_source(repo.name, String::new(), repo.icon_url, repo.description, repo.website, newest);
        let applications = items_of_sidestore(apps);
        Repository { schema_version: SchemaVersion::current(), info, categories, applications }
    }
}

impl GboxRepo {
    /// The plain GBox repository made from a SideStore source.
    pub fn from_sidestore(repo: sidestore::Repository) -> (res: GboxRepo)
        ensures
            res matches GboxRepo::Plain(r) && repo_from_sidestore(repo, r),
    {
        GboxRepo::Plain(Repository::from_sidestore(repo))
    }
}

} // verus!
