//! GBox repositories in plain form: their items readable.
use vstd::prelude::*;
use crate::codec::{base64_decoding, base64_encode, base64_encoding};
use crate::gbox::encrypted;
use crate::gbox::gbox_link::{GboxLink, OptionalGboxLink};
use crate::gbox::schema::SchemaVersion;
use crate::web_url::Url;

verus! {

/// A plain repository.
#[derive(Debug)]
pub struct Repository {
    pub schema_version: SchemaVersion,
    pub info: RepoInfo,
    pub categories: Vec<String>,
    pub applications: Vec<Item>,
}

/// What a repository says of itself.
#[derive(Debug)]
pub struct RepoInfo {
    pub name: String,
    pub author: String,
    pub icon_image_url: String,
    pub description: String,
    pub link_title: String,
    pub link_url: Url,
    pub update_time: String,
    /// The hash of the links map that unlocks the items.
    pub items_unlock_hash: Option<String>,
    /// The repository's processor settings, as JSON text.
    pub source_processor: Option<String>,
    pub export_enable: Option<bool>,
}

/// The fields that every item has.
#[derive(Debug)]
pub struct ItemBase {
    pub name: String,
    pub description: String,
    pub version: Option<String>,
    pub image: OptionalGboxLink,
    pub update_time: String,
    /// The item is locked with the unlock code.
    pub password_locked: bool,
    /// The item is shown only once unlocked.
    pub hide: bool,
    /// An extra line below the version line.
    pub detailed_info: Option<String>,
    /// The PPQ bypass is forced when signing.
    pub force_ppq_bypass: bool,
}

/// An item of a repository.
#[derive(Debug)]
pub enum Item {
    /// An app to be signed with the user's certificate.
    SelfSign(ItemApplication),
    /// An app to be signed with an enterprise certificate that GBox provides.
    EnterpriseSign(ItemApplication),
    /// A link opened directly.
    Link(ItemLink),
    /// An app from the App Store, installed without resigning.
    Shareing(ItemShareing),
    File(ItemFile),
}

/// An app item.
#[derive(Debug)]
pub struct ItemApplication {
    pub base: ItemBase,
    /// The app package.
    pub link: Option<GboxLink>,
    /// An external plist with the app's name, version, image and package.
    pub ext_info_link: Option<GboxLink>,
}

/// A link item.
#[derive(Debug)]
pub struct ItemLink {
    pub base: ItemBase,
    pub link: Option<GboxLink>,
}

/// An App Store app item.
#[derive(Debug)]
pub struct ItemShareing {
    pub base: ItemBase,
    /// The app package.
    pub link: Option<GboxLink>,
    /// An external plist with the app's name, version, image and package.
    pub ext_info_link: Option<GboxLink>,
}

/// A file item.
#[derive(Debug)]
pub struct ItemFile {
    pub base: ItemBase,
    pub link: GboxLink,
}

/// The hash and server of a repository's links map.
#[derive(Debug)]
pub struct RepoUnlockInfo {
    pub hash: String,
    pub url: Url,
}

/// A copy of an optional text.
pub fn clone_text(o: &Option<String>) -> (res: Option<String>)
    ensures
        res == *o,
{
    match o {
        Some(s) => Some(s.clone()),
        None => None,
    }
}

/// A copy of an optional link.
pub fn clone_link(o: &Option<GboxLink>) -> (res: Option<GboxLink>)
    ensures
        res == *o,
{
    match o {
        Some(l) => Some(l.clone()),
        None => None,
    }
}

impl Clone for ItemBase {
    fn clone(&self) -> (res: Self)
        ensures
            res == *self,
    {
        ItemBase {
            name: self.name.clone(),
            description: self.description.clone(),
            version: clone_text(&self.version),
            image: self.image.clone(),
            update_time: self.update_time.clone(),
            password_locked: self.password_locked,
            hide: self.hide,
            detailed_info: clone_text(&self.detailed_info),
            force_ppq_bypass: self.force_ppq_bypass,
        }
    }
}

impl Clone for ItemApplication {
    fn clone(&self) -> (res: Self)
        ensures
            res == *self,
    {
        ItemApplication { base: self.base.clone(), link: clone_link(&self.link), ext_info_link: clone_link(&self.ext_info_link) }
    }
}

impl Clone for Item {
    fn clone(&self) -> (res: Self)
        ensures
            res == *self,
    {
        match self {
            Item::SelfSign(a) => Item::SelfSign(a.clone()),
            Item::EnterpriseSign(a) => Item::EnterpriseSign(a.clone()),
            Item::Link(l) => Item::Link(ItemLink { base: l.base.clone(), link: clone_link(&l.link) }),
            Item::Shareing(s) => Item::Shareing(ItemShareing {
                base: s.base.clone(),
                link: clone_link(&s.link),
                ext_info_link: clone_link(&s.ext_info_link),
            }),
            Item::File(f) => Item::File(ItemFile { base: f.base.clone(), link: f.link.clone() }),
        }
    }
}

/// The plain item that a sealed item stands for; the category index is not kept.
pub open spec fn plain_item(e: encrypted::Item) -> Item {
    match e {
        encrypted::Item::SelfSign(a) => Item::SelfSign(plain_application(a)),
        encrypted::Item::EnterpriseSign(a) => Item::EnterpriseSign(plain_application(a)),
        encrypted::Item::Link(l) => Item::Link(ItemLink {
            base: ItemBase {
                name: l.name,
                description: l.description,
                version: l.version,
                image: l.image,
                update_time: l.update_time,
                password_locked: l.password_locked,
                hide: l.hide_until_unlocked,
                detailed_info: l.detailed_info,
                force_ppq_bypass: l.force_ppq_bypass,
            },
            link: l.link,
        }),
        encrypted::Item::AppWithoutSign(a) => Item::Shareing(ItemShareing {
            base: plain_application(a).base,
            link: a.link,
            ext_info_link: a.ext_info_link,
        }),
        encrypted::Item::File(f) => Item::File(ItemFile {
            base: ItemBase {
                name: f.name,
                description: f.description,
                version: f.version,
                image: f.image,
                update_time: f.update_time,
                password_locked: f.password_locked,
                hide: f.hide_until_unlocked,
                detailed_info: f.detailed_info,
                force_ppq_bypass: f.force_ppq_bypass,
            },
            link: f.link,
        }),
    }
}

/// The plain app item that a sealed app item stands for.
pub open spec fn plain_application(a: encrypted::ItemApplication) -> ItemApplication {
    ItemApplication {
        base: ItemBase {
            name: a.name,
            description: a.description,
            version: a.version,
            image: a.image,
            update_time: a.update_time,
            password_locked: a.password_locked,
            hide: a.hide_until_unlocked,
            detailed_info: a.detailed_info,
            force_ppq_bypass: a.force_ppq_bypass,
        },
        link: a.link,
        ext_info_link: a.ext_info_link,
    }
}

impl ItemApplication {
    /// The plain app item of a sealed app item.
    pub fn from_encrypted(a: encrypted::ItemApplication) -> (res: ItemApplication)
        ensures
            res == plain_application(a),
    {
        ItemApplication {
            base: ItemBase {
                name: a.name,
                description: a.description,
                version: a.version,
                image: a.image,
                update_time: a.update_time,
                password_locked: a.password_locked,
                hide: a.hide_until_unlocked,
                detailed_info: a.detailed_info,
                force_ppq_bypass: a.force_ppq_bypass,
            },
            link: a.link,
            ext_info_link: a.ext_info_link,
        }
    }
}

impl Item {
    /// The plain item of a sealed item.
    pub fn from_encrypted(e: encrypted::Item) -> (res: Item)
        ensures
            res == plain_item(e),
    {
        match e {
            encrypted::Item::SelfSign(a) => Item::SelfSign(ItemApplication::from_encrypted(a)),
            encrypted::Item::EnterpriseSign(a) => Item::EnterpriseSign(ItemApplication::from_encrypted(a)),
            encrypted::Item::Link(l) => Item::Link(ItemLink {
                base: ItemBase {
                    name: l.name,
                    description: l.description,
                    version: l.version,
                    image: l.image,
                    update_time: l.update_time,
                    password_locked: l.password_locked,
                    hide: l.hide_until_unlocked,
                    detailed_info: l.detailed_info,
                    force_ppq_bypass: l.force_ppq_bypass,
                },
                link: l.link,
            }),
            encrypted::Item::AppWithoutSign(a) => {
                let app = ItemApplication::from_encrypted(a);
                Item::Shareing(ItemShareing { base: app.base, link: app.link, ext_info_link: app.ext_info_link })
            },
            encrypted::Item::File(f) => Item::File(ItemFile {
                base: ItemBase {
                    name: f.name,
                    description: f.description,
                    version: f.version,
                    image: f.image,
                    update_time: f.update_time,
                    password_locked: f.password_locked,
                    hide: f.hide_until_unlocked,
                    detailed_info: f.detailed_info,
                    force_ppq_bypass: f.force_ppq_bypass,
                },
                link: f.link,
            }),
        }
    }
}

impl Repository {
    /// The sealed form of each item, in order.
    pub fn encrypted_items(&self) -> (res: Vec<encrypted::Item>)
        ensures
            res@ == self.applications@.map_values(|i: Item| encrypted::sealed_item(i)),
    {
        let mut res: Vec<encrypted::Item> = Vec::new();
        let mut i: usize = 0;
        while i < self.applications.len()
            invariant
                i <= self.applications@.len(),
                res@ == self.applications@.subrange(0, i as int).map_values(|i: Item| encrypted::sealed_item(i)),
            decreases self.applications@.len() - i,
        {
            let item = self.applications[i].clone();
            res.push(encrypted::Item::from_unencrypted(item));
            proof {
                assert(res@ =~= self.applications@.subrange(0, i + 1).map_values(|i: Item| encrypted::sealed_item(i)));
            }
            i = i + 1;
        }
        proof {
            assert(self.applications@.subrange(0, self.applications@.len() as int) =~= self.applications@);
        }
        res
    }

    /// The sealed repository, given `sealed_items`, the sealed JSON text of
    /// the sealed items (see `encrypted_items`): the items become that text in
    /// Base64, the rest is kept.
    pub fn encrypt(self, sealed_items: &[u8]) -> (res: encrypted::Repository)
        requires
            sealed_items@.len() <= usize::MAX / 4,
        ensures
            res.schema_version == self.schema_version,
            res.info == self.info,
            res.categories == self.categories,
            res.applications@ == base64_encoding(sealed_items@),
            base64_decoding(res.applications@) == Some(sealed_items@),
    {
        let applications = base64_encode(sealed_items);
        encrypted::Repository {
            schema_version: self.schema_version,
            info: self.info,
            categories: self.categories,
            applications,
        }
    }
}

} // verus!
