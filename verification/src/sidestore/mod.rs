pub mod application;
pub mod news;

use vstd::prelude::*;
use crate::altstore;
use crate::altstore::application::{gbox_item_application, gbox_item_converts};
use crate::altstore::color::AltStoreColor;
use crate::gbox::unencrypted::Item;
use crate::gbox::GboxRepo;
use crate::pairs::{filter_related, lemma_filter_related_step, reversed};
use crate::sidestore::application::{app_from_altstore, app_from_gbox, Application};
use crate::sidestore::news::{news_from_altstore, NewsItem};
use crate::web_url::{url_parsing, Url};
use std::collections::HashMap;

verus! {

/// A SideStore source.
#[derive(Debug)]
pub struct Repository {
    pub name: String,
    /// The version of the source format.
    pub version: Option<i64>,
    pub subtitle: Option<String>,
    pub website: Option<Url>,
    pub description: Option<String>,
    pub icon_url: Option<Url>,
    pub header_image_url: Option<Url>,
    pub patreon_url: Option<Url>,
    pub tint_color: Option<AltStoreColor>,
    /// Free-form information about the source, by key.
    pub user_info: Option<HashMap<String, String>>,
    /// The apps, in order.
    pub apps: Option<Vec<Application>>,
    pub news: Option<Vec<NewsItem>>,
    /// The bundle identifiers of the featured apps, in order.
    pub featured_apps: Option<Vec<String>>,
    /// The identifier of the source.
    pub group_id: Option<String>,
}

impl Repository {
    /// The apps of the source, in order; none where it lists none.
    pub open spec fn app_list(self) -> Seq<Application> {
        match self.apps {
            Some(v) => v@,
            None => Seq::empty(),
        }
    }
}

/// A GBox item can be made an app: an app item whose package link is a URL.
pub open spec fn gbox_converts() -> spec_fn(Item) -> bool {
    |i: Item| gbox_item_converts(i)
}

/// `a` is the SideStore app made from the GBox item `i`.
pub open spec fn app_from_gbox_item() -> spec_fn(Item, Application) -> bool {
    |i: Item, a: Application| app_from_gbox(gbox_item_application(i), a)
}

/// `s` is the SideStore source made from the GBox repository `g`: its name,
/// its link as website, its image as icon where that parses as a URL, and, for
/// a plain repository, the app items that have a package URL, in order, as
/// apps; nothing else.
pub open spec fn repo_from_gbox(g: GboxRepo, s: Repository) -> bool {
    &&& s.name == g.info().name
    &&& s.version is None
    &&& s.subtitle is None
    &&& s.website == Some(g.info().link_url)
    &&& s.description is None
    &&& (match url_parsing(g.info().icon_image_url@) {
        Some(t) => s.icon_url matches Some(u) && u@ == t,
        None => s.icon_url is None,
    })
    &&& s.header_image_url is None
    &&& s.patreon_url is None
    &&& s.tint_color is None
    &&& s.user_info is None
    &&& (match g {
        GboxRepo::Plain(r) => s.apps matches Some(v) && filter_related(r.applications@, v@, gbox_converts(), app_from_gbox_item()),
        GboxRepo::Encrypted(_) => s.apps is None,
    })
    &&& s.news is None
    &&& s.featured_apps is None
    &&& s.group_id is None
}

/// Each of `s` is the SideStore app made from the AltStore app at the same position.
pub open spec fn apps_from_altstore(a: Seq<altstore::application::Application>, s: Seq<Application>) -> bool {
    a.len() == s.len() && forall|i: int| 0 <= i < a.len() ==> #[trigger] app_from_altstore(a[i], s[i])
}

/// Each of `s` is the SideStore news item made from the AltStore one at the same position.
pub open spec fn all_news_from_altstore(a: Seq<altstore::news::NewsItem>, s: Seq<NewsItem>) -> bool {
    a.len() == s.len() && forall|i: int| 0 <= i < a.len() ==> #[trigger] news_from_altstore(a[i], s[i])
}

/// `s` is the SideStore source made from the AltStore source `a`: name,
/// subtitle, description, icon, website, tint color and featured apps kept,
/// every app and news item converted, in order; nothing else.
pub open spec fn repo_from_altstore(a: altstore::Repository, s: Repository) -> bool {
    &&& s.name == a.name
    &&& s.version is None
    &&& s.subtitle == a.subtitle
    &&& s.website == a.website
    &&& s.description == a.description
    &&& s.icon_url == a.icon_url
    &&& s.header_image_url is None
    &&& s.patreon_url is None
    &&& s.tint_color == a.tint_color
    &&& s.user_info is None
    &&& (match a.apps {
        Some(v) => s.apps matches Some(w) && apps_from_altstore(v@, w@),
        None => s.apps is None,
    })
    &&& (match a.news {
        Some(v) => s.news matches Some(w) && all_news_from_altstore(v@, w@),
        None => s.news is None,
    })
    &&& s.featured_apps == a.featured_apps
    &&& s.group_id is None
}

/// The SideStore apps made from the GBox items that can be made apps.
fn apps_of_gbox_items(items: Vec<Item>) -> (res: Vec<Application>)
    ensures
        filter_related(items@, res@, gbox_converts(), app_from_gbox_item()),
{
    let ghost src = items@;
    let n = items.len();
    let mut out: Vec<Application> = Vec::new();
    let mut rest = reversed(items);
    let mut i: usize = 0;
    while rest.len() > 0
        invariant
            i + rest@.len() == n,
            n == src.len(),
            forall|k: int| 0 <= k < rest@.len() ==> #[trigger] rest@[k] == src[src.len() - 1 - k],
            filter_related(src.subrange(0, i as int), out@, gbox_converts(), app_from_gbox_item()),
        decreases rest@.len(),
    {
        let item = rest.pop().unwrap();
        proof {
            assert(item == src[i as int]);
        }
        match Application::from_gbox_item(item) {
            Ok(app) => {
                proof {
                    lemma_filter_related_step(src, out@, i as int, gbox_converts(), app_from_gbox_item(), app);
                }
                out.push(app);
            },
            Err(_) => {
                proof {
                    lemma_filter_related_step(src, out@, i as int, gbox_converts(), app_from_gbox_item(), arbitrary());
                }
            },
        }
        i = i + 1;
    }
    proof {
        assert(src.subrange(0, src.len() as int) =~= src);
    }
    out
}

/// The SideStore apps made from AltStore apps, in order.
fn apps_of_altstore(apps: Vec<altstore::application::Application>) -> (res: Vec<Application>)
    ensures
        apps_from_altstore(apps@, res@),
{
    let ghost src = apps@;
    let n = apps.len();
    let mut out: Vec<Application> = Vec::new();
    let mut rest = reversed(apps);
    let mut i: usize = 0;
    while rest.len() > 0
        invariant
            i + rest@.len() == n,
            n == src.len(),
            forall|k: int| 0 <= k < rest@.len() ==> #[trigger] rest@[k] == src[src.len() - 1 - k],
            apps_from_altstore(src.subrange(0, i as int), out@),
        decreases rest@.len(),
    {
        let app = rest.pop().unwrap();
        let ghost before = out@;
        out.push(Application::from_altstore(app));
        proof {
            assert(app == src[i as int]);
            assert forall|k: int| 0 <= k < i + 1 implies #[trigger] app_from_altstore(src.subrange(0, i + 1)[k], out@[k]) by {
                if k < i {
                    assert(src.subrange(0, i + 1)[k] == src.subrange(0, i as int)[k]);
                    assert(out@[k] == before[k]);
                }
            }
        }
        i = i + 1;
    }
    proof {
        assert(src.subrange(0, src.len() as int) =~= src);
    }
    out
}

/// The SideStore news items made from AltStore news items, in order.
fn news_of_altstore(news: Vec<altstore::news::NewsItem>) -> (res: Vec<NewsItem>)
    ensures
        all_news_from_altstore(news@, res@),
{
    let ghost src = news@;
    let n = news.len();
    let mut out: Vec<NewsItem> = Vec::new();
    let mut rest = reversed(news);
    let mut i: usize = 0;
    while rest.len() > 0
        invariant
            i + rest@.len() == n,
            n == src.len(),
            forall|k: int| 0 <= k < rest@.len() ==> #[trigger] rest@[k] == src[src.len() - 1 - k],
            all_news_from_altstore(src.subrange(0, i as int), out@),
        decreases rest@.len(),
    {
        let item = rest.pop().unwrap();
        let ghost before = out@;
        out.push(NewsItem::from_altstore(item));
        proof {
            assert(item == src[i as int]);
            assert forall|k: int| 0 <= k < i + 1 implies #[trigger] news_from_altstore(src.subrange(0, i + 1)[k], out@[k]) by {
                if k < i {
                    assert(src.subrange(0, i + 1)[k] == src.subrange(0, i as int)[k]);
                    assert(out@[k] == before[k]);
                }
            }
        }
        i = i + 1;
    }
    proof {
        assert(src.subrange(0, src.len() as int) =~= src);
    }
    out
}

impl Repository {
    /// The SideStore source made from a GBox repository; a sealed repository
    /// gives no apps.
    pub fn from_gbox(gbox: GboxRepo) -> (res: Repository)
        ensures
            repo_from_gbox(gbox, res),
    {
        let general = gbox.general_info();
        let name = general.name.clone();
        let website = general.link_url.clone();
        let icon_url = match Url::parse(general.icon_image_url.as_str()) {
            Ok(u) => Some(u),
            Err(_) => None,
        };
        let apps = match gbox {
            GboxRepo::Plain(r) => Some(apps_of_gbox_items(r.applications)),
            GboxRepo::Encrypted(_) => None,
        };
        Repository {
            name,
            version: None,
            subtitle: None,
            website: Some(website),
            description: None,
            icon_url,
            header_image_url: None,
            patreon_url: None,
            tint_color: None,
            user_info: None,
            apps,
            news: None,
            featured_apps: None,
            group_id: None,
        }
    }

    /// The SideStore source made from an AltStore source.
    pub fn from_altstore(altstore: altstore::Repository) -> (res: Repository)
        ensures
            repo_from_altstore(altstore, res),
    {
        let apps = match altstore.apps {
            Some(v) => Some(apps_of_altstore(v)),
            None => None,
        };
        let news = match altstore.news {
            Some(v) => Some(news_of_altstore(v)),
            None => None,
        };
        Repository {
            name: altstore.name,
            version: None,
            subtitle: altstore.subtitle,
            website: altstore.website,
            description: altstore.description,
            icon_url: altstore.icon_url,
            header_image_url: None,
            patreon_url: None,
            tint_color: altstore.tint_color,
            user_info: None,
            apps,
            news,
            featured_apps: altstore.featured_apps,
            group_id: None,
        }
    }
}

} // verus!
