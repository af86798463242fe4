//! News items of AltStore sources.
use vstd::prelude::*;
use crate::altstore::color::AltStoreColor;
use crate::instant::DateTime;
use crate::web_url::Url;

verus! {

/// A news item of an AltStore source.
#[derive(Debug)]
pub struct NewsItem {
    pub title: String,
    /// A value that tells this item from the others of the source.
    pub identifier: String,
    pub caption: String,
    pub date: DateTime,
    pub tint_color: Option<AltStoreColor>,
    pub image_url: Option<Url>,
    /// Whether AltStore notifies the user of this item.
    pub notify: bool,
    /// The page that AltStore opens when the item is tapped.
    pub url: Option<Url>,
    /// The bundle identifier of an app whose banner is shown below the item.
    pub app_id: Option<String>,
}

} // verus!

verus! {

/// `a` is the AltStore news item made from the SideStore news item `s`: the
/// same fields, the SideStore external URL becoming `url`.
pub open spec fn news_from_sidestore(s: crate::sidestore::news::NewsItem, a: NewsItem) -> bool {
    crate::sidestore::news::news_from_altstore(a, s)
}

impl NewsItem {
    /// The AltStore news item made from a SideStore news item.
    pub fn from_sidestore(s: crate::sidestore::news::NewsItem) -> (res: NewsItem)
        ensures
            news_from_sidestore(s, res),
    {
        NewsItem {
            title: s.title,
            identifier: s.identifier,
            caption: s.caption,
            date: s.date,
            tint_color: s.tint_color,
            image_url: s.image_url,
            notify: s.notify,
            url: s.external_url,
            app_id: s.app_id,
        }
    }
}

} // verus!
