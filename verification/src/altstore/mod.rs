pub mod application;
pub mod color;
pub mod news;
pub mod permissions;

use vstd::prelude::*;
use crate::altstore::application::{app_from_gbox, app_from_sidestore, gbox_item_application, gbox_item_converts, Application};
use crate::altstore::color::AltStoreColor;
use crate::altstore::news::{news_from_sidestore, NewsItem};
use crate::gbox::unencrypted::Item;
use crate::gbox::GboxRepo;
use crate::pairs::{filter_related, lemma_filter_related_step, reversed};
use crate::sidestore;
use crate::web_url::{url_parsing, Url};

verus! {

/// An AltStore source.
#[derive(Debug)]
pub struct Repository {
    /// The name of the source as AltStore shows it.
    pub name: String,
    /// A one-sentence description, shown below the name on the About page.
    pub subtitle: Option<String>,
    pub description: Option<String>,
    pub icon_url: Option<Url>,
    /// The header image of the About page.
    pub header_url: Option<Url>,
    pub website: Option<Url>,
    /// The source's account name on the AltStore explore site.
    pub fedi_username: Option<String>,
    pub patreon_url: Option<Url>,
    pub tint_color: Option<AltStoreColor>,
    /// The bundle identifiers of the featured apps, in order.
    pub featured_apps: Option<Vec<String>>,
    /// The apps, in order.
    pub apps: Option<Vec<Application>>,
    pub news: Option<Vec<NewsItem>>,
}

impl Repository {
    /// The apps of the source, in order; none where it lists none.
    pub open spec fn app_list(self) -> Seq<Application> {
        match self.apps {
            Some(v) => v@,
            None => Seq::empty(),
        }
    }
}

/// A GBox item can be made an app: an app item whose package link is a URL.
pub open spec fn gbox_converts() -> spec_fn(Item) -> bool {
    |i: Item| gbox_item_converts(i)
}

/// `a` is the AltStore app made from the GBox item `i`.
pub open spec fn app_from_gbox_item() -> spec_fn(Item, Application) -> bool {
    |i: Item, a: Application| app_from_gbox(gbox_item_application(i), a)
}

/// A SideStore app can be made an AltStore app: its releases are not in tracks.
pub open spec fn sidestore_converts() -> spec_fn(sidestore::application::Application) -> bool {
    |s: sidestore::application::Application| !(s.download_asset is Tracks)
}

/// `a` is the AltStore app made from the SideStore app `s`.
pub open spec fn app_from_sidestore_app() -> spec_fn(sidestore::application::Application, Application) -> bool {
    |s: sidestore::application::Application, a: Application| app_from_sidestore(s, a)
}

/// `a` is the AltStore source made from the GBox repository `g`: its name,
/// its link as website, its image as icon where that parses as a URL, and, for
/// a plain repository, the app items that have a package URL, in order, as
/// apps; nothing else.
pub open spec fn repo_from_gbox(g: GboxRepo, a: Repository) -> bool {
    &&& a.name == g.info().name
    &&& a.subtitle is None
    &&& a.description is None
    &&& (match url_parsing(g.info().icon_image_url@) {
        Some(t) => a.icon_url matches Some(u) && u@ == t,
        None => a.icon_url is None,
    })
    &&& a.header_url is None
    &&& a.website == Some(g.info().link_url)
    &&& a.fedi_username is None
    &&& a.patreon_url is None
    &&& a.tint_color is None
    &&& a.featured_apps is None
    &&& (match g {
        GboxRepo::Plain(r) => a.apps matches Some(v) && filter_related(r.applications@, v@, gbox_converts(), app_from_gbox_item()),
        GboxRepo::Encrypted(_) => a.apps is None,
    })
    &&& a.news is None
}

/// Each of `a` is the AltStore news item made from the SideStore one at the same position.
pub open spec fn all_news_from_sidestore(s: Seq<sidestore::news::NewsItem>, a: Seq<NewsItem>) -> bool {
    s.len() == a.len() && forall|i: int| 0 <= i < s.len() ==> #[trigger] news_from_sidestore(s[i], a[i])
}

/// `a` is the AltStore source made from the SideStore source `s`: the fields
/// that both have kept, the apps whose releases are not in tracks converted,
/// in order, every news item converted, in order; no account name.
pub open spec fn repo_from_sidestore(s: sidestore::Repository, a: Repository) -> bool {
    &&& a.name == s.name
    &&& a.subtitle == s.subtitle
    &&& a.description == s.description
    &&& a.icon_url == s.icon_url
    &&& a.header_url == s.header_image_url
    &&& a.website == s.website
    &&& a.fedi_username is None
    &&& a.patreon_url == s.patreon_url
    &&& a.tint_color == s.tint_color
    &&& a.featured_apps == s.featured_apps
    &&& (match s.apps {
        Some(v) => a.apps matches Some(w) && filter_related(v@, w@, sidestore_converts(), app_from_sidestore_app()),
        None => a.apps is None,
    })
    &&& (match s.news {
        Some(v) => a.news matches Some(w) && all_news_from_sidestore(v@, w@),
        None => a.news is None,
    })
}

/// The AltStore apps made from the GBox items that can be made apps.
fn apps_of_gbox_items(items: Vec<Item>) -> (res: Vec<Application>)
    ensures
        filter_related(items@, res@, gbox_converts(), app_from_gbox_item()),
{
    let ghost src = items@;
    let n = items.len();
    let mut out: Vec<Application> = Vec::new();
    let mut rest = reversed(items);
    let mut i: usize = 0;
    while rest.len() > 0
        invariant
            i + rest@.len() == n,
            n == src.len(),
            forall|k: int| 0 <= k < rest@.len() ==> #[trigger] rest@[k] == src[src.len() - 1 - k],
            filter_related(src.subrange(0, i as int), out@, gbox_converts(), app_from_gbox_item()),
        decreases rest@.len(),
    {
        let item = rest.pop().unwrap();
        proof {
            assert(item == src[i as int]);
        }
        match Application::from_gbox_item(item) {
            Ok(app) => {
                proof {
                    lemma_filter_related_step(src, out@, i as int, gbox_converts(), app_from_gbox_item(), app);
                }
                out.push(app);
            },
            Err(_) => {
                proof {
                    lemma_filter_related_step(src, out@, i as int, gbox_converts(), app_from_gbox_item(), arbitrary());
                }
            },
        }
        i = i + 1;
    }
    proof {
        assert(src.subrange(0, src.len() as int) =~= src);
    }
    out
}

/// The AltStore apps made from the SideStore apps whose releases are not in tracks.
fn apps_of_sidestore(apps: Vec<sidestore::application::Application>) -> (res: Vec<Application>)
    ensures
        filter_related(apps@, res@, sidestore_converts(), app_from_sidestore_app()),
{
    let ghost src = apps@;
    let n = apps.len();
    let mut out: Vec<Application> = Vec::new();
    let mut rest = reversed(apps);
    let mut i: usize = 0;
    while rest.len() > 0
        invariant
            i + rest@.len() == n,
            n == src.len(),
            forall|k: int| 0 <= k < rest@.len() ==> #[trigger] rest@[k] == src[src.len() - 1 - k],
            filter_related(src.subrange(0, i as int), out@, sidestore_converts(), app_from_sidestore_app()),
        decreases rest@.len(),
    {
        let app = rest.pop().unwrap();
        proof {
            assert(app == src[i as int]);
        }
        match Application::try_from_sidestore(app) {
            Ok(a) => {
                proof {
                    lemma_filter_related_step(src, out@, i as int, sidestore_converts(), app_from_sidestore_app(), a);
                }
                out.push(a);
            },
            Err(_) => {
                proof {
                    lemma_filter_related_step(src, out@, i as int, sidestore_converts(), app_from_sidestore_app(), arbitrary());
                }
            },
        }
        i = i + 1;
    }
    proof {
        assert(src.subrange(0, src.len() as int) =~= src);
    }
    out
}

/// The AltStore news items made from SideStore news items, in order.
fn news_of_sidestore(news: Vec<sidestore::news::NewsItem>) -> (res: Vec<NewsItem>)
    ensures
        all_news_from_sidestore(news@, res@),
{
    let ghost src = news@;
    let n = news.len();
    let mut out: Vec<NewsItem> = Vec::new();
    let mut rest = reversed(news);
    let mut i: usize = 0;
    while rest.len() > 0
        invariant
            i + rest@.len() == n,
            n == src.len(),
            forall|k: int| 0 <= k < rest@.len() ==> #[trigger] rest@[k] == src[src.len() - 1 - k],
            all_news_from_sidestore(src.subrange(0, i as int), out@),
        decreases rest@.len(),
    {
        let item = rest.pop().unwrap();
        let ghost before = out@;
        out.push(NewsItem::from_sidestore(item));
        proof {
            assert(item == src[i as int]);
            assert forall|k: int| 0 <= k < i + 1 implies #[trigger] news_from_sidestore(src.subrange(0, i + 1)[k], out@[k]) by {
                if k < i {
                    assert(src.subrange(0, i + 1)[k] == src.subrange(0, i as int)[k]);
                    assert(out@[k] == before[k]);
                }
            }
        }
        i = i + 1;
    }
    proof {
        assert(src.subrange(0, src.len() as int) =~= src);
    }
    out
}

impl Repository {
    /// The AltStore source made from a GBox repository; a sealed repository
    /// gives no apps.
    pub fn from_gbox(gbox: GboxRepo) -> (res: Repository)
        ensures
            repo_from_gbox(gbox, res),
    {
        let general = gbox.general_info();
        let name = general.name.clone();
        let website = general.link_url.clone();
        let icon_url = match Url::parse(general.icon_image_url.as_str()) {
            Ok(u) => Some(u),
            Err(_) => None,
        };
        let apps = match gbox {
            GboxRepo::Plain(r) => Some(apps_of_gbox_items(r.applications)),
            GboxRepo::Encrypted(_) => None,
        };
        Repository {
            name,
            subtitle: None,
            description: None,
            icon_url,
            header_url: None,
            website: Some(website),
            fedi_username: None,
            patreon_url: None,
            tint_color: None,
            featured_apps: None,
            apps,
            news: None,
        }
    }

    /// The AltStore source made from a SideStore source; apps whose releases
    /// are in tracks are left out.
    pub fn from_sidestore(sidestore: sidestore::Repository) -> (res: Repository)
        ensures
            repo_from_sidestore(sidestore, res),
    {
        let apps = match sidestore.apps {
            Some(v) => Some(apps_of_sidestore(v)),
            None => None,
        };
        let news = match sidestore.news {
            Some(v) => Some(news_of_sidestore(v)),
            None => None,
        };
        Repository {
            name: sidestore.name,
            subtitle: sidestore.subtitle,
            description: sidestore.description,
            icon_url: sidestore.icon_url,
            header_url: sidestore.header_image_url,
            website: sidestore.website,
            fedi_username: None,
            patreon_url: sidestore.patreon_url,
            tint_color: sidestore.tint_color,
            featured_apps: sidestore.featured_apps,
            apps,
            news,
        }
    }
}

} // verus!
