//! News items of SideStore sources.
use vstd::prelude::*;
use crate::altstore;
use crate::altstore::color::AltStoreColor;
use crate::instant::DateTime;
use crate::web_url::Url;

verus! {

/// A news item of a SideStore source.
#[derive(Debug)]
pub struct NewsItem {
    pub identifier: String,
    pub date: DateTime,
    pub title: String,
    pub caption: String,
    pub tint_color: Option<AltStoreColor>,
    pub image_url: Option<Url>,
    /// The page that is opened when the item is tapped.
    pub external_url: Option<Url>,
    /// The bundle identifier of an associated app.
    pub app_id: Option<String>,
    pub notify: bool,
}

/// `s` is the SideStore news item made from the AltStore news item `a`: the
/// same fields, the AltStore `url` becoming the external URL.
pub open spec fn news_from_altstore(a: altstore::news::NewsItem, s: NewsItem) -> bool {
    &&& s.identifier == a.identifier
    &&& s.date == a.date
    &&& s.title == a.title
    &&& s.caption == a.caption
    &&& s.tint_color == a.tint_color
    &&& s.image_url == a.image_url
    &&& s.external_url == a.url
    &&& s.app_id == a.app_id
    &&& s.notify == a.notify
}

/// A news item converted between AltStore and SideStore, either way, keeps
/// its title as the title and its caption as the caption, with its
/// identifier, date, linked page, color, image, app and notification.
pub proof fn law_news_keeps_title_and_caption(a: altstore::news::NewsItem, s: NewsItem)
    ensures
        news_from_altstore(a, s) ==> s.title == a.title && s.caption == a.caption && s.identifier == a.identifier
            && s.date == a.date && s.external_url == a.url && s.tint_color == a.tint_color
            && s.image_url == a.image_url && s.app_id == a.app_id && s.notify == a.notify,
        altstore::news::news_from_sidestore(s, a) ==> a.title == s.title && a.caption == s.caption
            && a.identifier == s.identifier && a.date == s.date && a.url == s.external_url
            && a.tint_color == s.tint_color && a.image_url == s.image_url && a.app_id == s.app_id
            && a.notify == s.notify,
{
}

impl NewsItem {
    /// The SideStore news item made from an AltStore news item.
    pub fn from_altstore(a: altstore::news::NewsItem) -> (res: NewsItem)
        ensures
            news_from_altstore(a, res),
    {
        NewsItem {
            identifier: a.identifier,
            date: a.date,
            title: a.title,
            caption: a.caption,
            tint_color: a.tint_color,
            image_url: a.image_url,
            external_url: a.url,
            app_id: a.app_id,
            notify: a.notify,
        }
    }
}

} // verus!
