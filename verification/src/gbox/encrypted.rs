//! GBox repositories in sealed form: their items sealed and in Base64.
use vstd::prelude::*;
use crate::codec::{base64_decode, base64_decoding};
use crate::error::GboxError;
use crate::gbox::gbox_link::{GboxLink, OptionalGboxLink};
use crate::gbox::schema::SchemaVersion;
use crate::gbox::unencrypted::{self, plain_item, RepoInfo};
use crate::unit_number::UnsignedNumber;

verus! {

/// A sealed repository.
#[derive(Debug)]
pub struct Repository {
    pub schema_version: SchemaVersion,
    pub info: RepoInfo,
    pub categories: Vec<String>,
    /// The sealed JSON text of the items, in Base64.
    pub applications: String,
}

/// An item of a sealed repository.
#[derive(Debug)]
pub enum Item {
    /// An app to be signed with the user's certificate.
    SelfSign(ItemApplication),
    /// An app to be signed with an enterprise certificate that GBox provides.
    EnterpriseSign(ItemApplication),
    /// A link opened directly.
    Link(ItemLink),
    /// An app from the App Store, installed without resigning.
    AppWithoutSign(ItemApplication),
    File(ItemFile),
}

/// An app item.
#[derive(Debug)]
pub struct ItemApplication {
    pub name: String,
    pub description: String,
    pub version: Option<String>,
    pub image: OptionalGboxLink,
    pub update_time: String,
    pub password_locked: bool,
    pub hide_until_unlocked: bool,
    pub detailed_info: Option<String>,
    pub force_ppq_bypass: bool,
    pub category_index: Option<UnsignedNumber>,
    /// The app package.
    pub link: Option<GboxLink>,
    /// An external plist with the app's name, version, image and package.
    pub ext_info_link: Option<GboxLink>,
}

/// A link item.
#[derive(Debug)]
pub struct ItemLink {
    pub name: String,
    pub description: String,
    pub version: Option<String>,
    pub image: OptionalGboxLink,
    pub update_time: String,
    pub password_locked: bool,
    pub hide_until_unlocked: bool,
    pub detailed_info: Option<String>,
    pub force_ppq_bypass: bool,
    pub category_index: Option<UnsignedNumber>,
    pub link: Option<GboxLink>,
}

/// A file item.
#[derive(Debug)]
pub struct ItemFile {
    pub name: String,
    pub description: String,
    pub version: Option<String>,
    pub image: OptionalGboxLink,
    pub update_time: String,
    pub password_locked: bool,
    pub hide_until_unlocked: bool,
    pub detailed_info: Option<String>,
    pub force_ppq_bypass: bool,
    pub category_index: Option<UnsignedNumber>,
    pub link: GboxLink,
}

/// The sealed app item of a plain app item, of the given kind of package.
pub open spec fn sealed_application(a: unencrypted::ItemApplication) -> ItemApplication {
    ItemApplication {
        name: a.base.name,
        description: a.base.description,
        version: a.base.version,
        image: a.base.image,
        update_time: a.base.update_time,
        password_locked: a.base.password_locked,
        hide_until_unlocked: a.base.hide,
        detailed_info: a.base.detailed_info,
        force_ppq_bypass: a.base.force_ppq_bypass,
        category_index: None,
        link: a.link,
        ext_info_link: a.ext_info_link,
    }
}

/// The sealed item of a plain item.
pub open spec fn sealed_item(u: unencrypted::Item) -> Item {
    match u {
        unencrypted::Item::SelfSign(a) => Item::SelfSign(sealed_application(a)),
        unencrypted::Item::EnterpriseSign(a) => Item::EnterpriseSign(sealed_application(a)),
        unencrypted::Item::Link(l) => Item::Link(ItemLink {
            name: l.base.name,
            description: l.base.description,
            version: l.base.version,
            image: l.base.image,
            update_time: l.base.update_time,
            password_locked: l.base.password_locked,
            hide_until_unlocked: l.base.hide,
            detailed_info: l.base.detailed_info,
            force_ppq_bypass: l.base.force_ppq_bypass,
            category_index: None,
            link: l.link,
        }),
        unencrypted::Item::Shareing(s) => Item::AppWithoutSign(sealed_application(
            unencrypted::ItemApplication { base: s.base, link: s.link, ext_info_link: s.ext_info_link },
        )),
        unencrypted::Item::File(f) => Item::File(ItemFile {
            name: f.base.name,
            description: f.base.description,
            version: f.base.version,
            image: f.base.image,
            update_time: f.base.update_time,
            password_locked: f.base.password_locked,
            hide_until_unlocked: f.base.hide,
            detailed_info: f.base.detailed_info,
            force_ppq_bypass: f.base.force_ppq_bypass,
            category_index: None,
            link: f.link,
        }),
    }
}

impl ItemApplication {
    /// The sealed app item of a plain app item.
    pub fn from_unencrypted(a: unencrypted::ItemApplication) -> (res: ItemApplication)
        ensures
            res == sealed_application(a),
    {
        ItemApplication {
            name: a.base.name,
            description: a.base.description,
            version: a.base.version,
            image: a.base.image,
            update_time: a.base.update_time,
            password_locked: a.base.password_locked,
            hide_until_unlocked: a.base.hide,
            detailed_info: a.base.detailed_info,
            force_ppq_bypass: a.base.force_ppq_bypass,
            category_index: None,
            link: a.link,
            ext_info_link: a.ext_info_link,
        }
    }
}

impl Item {
    /// The sealed item of a plain item.
    pub fn from_unencrypted(u: unencrypted::Item) -> (res: Item)
        ensures
            res == sealed_item(u),
    {
        match u {
            unencrypted::Item::SelfSign(a) => Item::SelfSign(ItemApplication::from_unencrypted(a)),
            unencrypted::Item::EnterpriseSign(a) => Item::EnterpriseSign(ItemApplication::from_unencrypted(a)),
            unencrypted::Item::Link(l) => Item::Link(ItemLink {
                name: l.base.name,
                description: l.base.description,
                version: l.base.version,
                image: l.base.image,
                update_time: l.base.update_time,
                password_locked: l.base.password_locked,
                hide_until_unlocked: l.base.hide,
                detailed_info: l.base.detailed_info,
                force_ppq_bypass: l.base.force_ppq_bypass,
                category_index: None,
                link: l.link,
            }),
            unencrypted::Item::Shareing(s) => Item::AppWithoutSign(ItemApplication::from_unencrypted(
                unencrypted::ItemApplication { base: s.base, link: s.link, ext_info_link: s.ext_info_link },
            )),
            unencrypted::Item::File(f) => Item::File(ItemFile {
                name: f.base.name,
                description: f.base.description,
                version: f.base.version,
                image: f.base.image,
                update_time: f.base.update_time,
                password_locked: f.base.password_locked,
                hide_until_unlocked: f.base.hide,
                detailed_info: f.base.detailed_info,
                force_ppq_bypass: f.base.force_ppq_bypass,
                category_index: None,
                link: f.link,
            }),
        }
    }
}

impl Repository {
    /// The sealed JSON text of the items: the items' text decoded from Base64.
    pub fn decrypt_payload(&self) -> (res: Result<Vec<u8>, GboxError>)
        ensures
            match res {
                Ok(v) => base64_decoding(self.applications@) == Some(v@),
                Err(e) => base64_decoding(self.applications@) is None && e is InvalidBase64,
            },
    {
        match base64_decode(self.applications.as_str()) {
            Ok(v) => Ok(v),
            Err(e) => Err(GboxError::InvalidBase64(e)),
        }
    }

    /// The plain repository, given `items`, the items that the opened payload
    /// holds (see `decrypt_payload`): each item in plain form, the rest kept.
    pub fn decrypt(self, items: Vec<Item>) -> (res: unencrypted::Repository)
        ensures
            res.schema_version == self.schema_version,
            res.info == self.info,
            res.categories == self.categories,
            res.applications@ == items@.map_values(|e: Item| plain_item(e)),
    {
        let ghost src = items@;
        let n = items.len();
        let mut out: Vec<unencrypted::Item> = Vec::new();
        let mut rest = crate::pairs::reversed(items);
        let mut i: usize = 0;
        while rest.len() > 0
            invariant
                i + rest@.len() == n,
                n == src.len(),
                forall|k: int| 0 <= k < rest@.len() ==> #[trigger] rest@[k] == src[src.len() - 1 - k],
                out@ == src.subrange(0, i as int).map_values(|e: Item| plain_item(e)),
            decreases rest@.len(),
        {
            let e = rest.pop().unwrap();
            proof {
                assert(e == src[i as int]);
            }
            out.push(unencrypted::Item::from_encrypted(e));
            proof {
                assert(out@ =~= src.subrange(0, i + 1).map_values(|e: Item| plain_item(e)));
            }
            i = i + 1;
        }
        proof {
            assert(src.subrange(0, src.len() as int) =~= src);
        }
        unencrypted::Repository {
            schema_version: self.schema_version,
            info: self.info,
            categories: self.categories,
            applications: out,
        }
    }
}

/// Sealing an item and reading it back gives the item.
pub proof fn law_item_roundtrip(u: unencrypted::Item)
    ensures
        plain_item(sealed_item(u)) == u,
{
    match u {
        unencrypted::Item::Shareing(s) => {},
        _ => {},
    }
}

/// Sealing keeps the kind of an item and what it tells: an app to sign by the
/// user stays one, an app to sign by an enterprise certificate stays one, a
/// link stays a link, an App Store app becomes an app installed without
/// signing, a file stays a file, each with its name, lock and links. Opening
/// keeps the kind the same way back.
pub proof fn law_sealing_keeps_kind(u: unencrypted::Item, e: Item)
    ensures
        u matches unencrypted::Item::SelfSign(a) ==> sealed_item(u) matches Item::SelfSign(s) && s.name == a.base.name
            && s.password_locked == a.base.password_locked && s.link == a.link && s.ext_info_link == a.ext_info_link,
        u matches unencrypted::Item::EnterpriseSign(a) ==> sealed_item(u) matches Item::EnterpriseSign(s)
            && s.name == a.base.name && s.password_locked == a.base.password_locked && s.link == a.link
            && s.ext_info_link == a.ext_info_link,
        u matches unencrypted::Item::Link(l) ==> sealed_item(u) matches Item::Link(s) && s.name == l.base.name
            && s.password_locked == l.base.password_locked && s.link == l.link,
        u matches unencrypted::Item::Shareing(a) ==> sealed_item(u) matches Item::AppWithoutSign(s) && s.name == a.base.name
            && s.password_locked == a.base.password_locked && s.link == a.link && s.ext_info_link == a.ext_info_link,
        u matches unencrypted::Item::File(f) ==> sealed_item(u) matches Item::File(s) && s.name == f.base.name
            && s.password_locked == f.base.password_locked && s.link == f.link,
        e matches Item::SelfSign(s) ==> unencrypted::plain_item(e) matches unencrypted::Item::SelfSign(a)
            && a.base.name == s.name && a.base.password_locked == s.password_locked && a.link == s.link
            && a.ext_info_link == s.ext_info_link,
        e matches Item::EnterpriseSign(s) ==> unencrypted::plain_item(e) matches unencrypted::Item::EnterpriseSign(a)
            && a.base.name == s.name && a.base.password_locked == s.password_locked && a.link == s.link
            && a.ext_info_link == s.ext_info_link,
        e matches Item::Link(s) ==> unencrypted::plain_item(e) matches unencrypted::Item::Link(l) && l.base.name == s.name
            && l.base.password_locked == s.password_locked && l.link == s.link,
        e matches Item::AppWithoutSign(s) ==> unencrypted::plain_item(e) matches unencrypted::Item::Shareing(a)
            && a.base.name == s.name && a.base.password_locked == s.password_locked && a.link == s.link
            && a.ext_info_link == s.ext_info_link,
        e matches Item::File(s) ==> unencrypted::plain_item(e) matches unencrypted::Item::File(f) && f.base.name == s.name
            && f.base.password_locked == s.password_locked && f.link == s.link,
{
}

/// Sealing an app item keeps each of its fields under its sealed name (the
/// item shown only once unlocked stays so) and gives it no category index;
/// opening a sealed app item keeps each field back.
pub proof fn law_sealed_application_fields(a: unencrypted::ItemApplication, e: ItemApplication)
    ensures
        sealed_application(a).name == a.base.name,
        sealed_application(a).description == a.base.description,
        sealed_application(a).version == a.base.version,
        sealed_application(a).image == a.base.image,
        sealed_application(a).update_time == a.base.update_time,
        sealed_application(a).password_locked == a.base.password_locked,
        sealed_application(a).hide_until_unlocked == a.base.hide,
        sealed_application(a).detailed_info == a.base.detailed_info,
        sealed_application(a).force_ppq_bypass == a.base.force_ppq_bypass,
        sealed_application(a).category_index is None,
        sealed_application(a).link == a.link,
        sealed_application(a).ext_info_link == a.ext_info_link,
        unencrypted::plain_application(e).base.name == e.name,
        unencrypted::plain_application(e).base.description == e.description,
        unencrypted::plain_application(e).base.version == e.version,
        unencrypted::plain_application(e).base.image == e.image,
        unencrypted::plain_application(e).base.update_time == e.update_time,
        unencrypted::plain_application(e).base.password_locked == e.password_locked,
        unencrypted::plain_application(e).base.hide == e.hide_until_unlocked,
        unencrypted::plain_application(e).base.detailed_info == e.detailed_info,
        unencrypted::plain_application(e).base.force_ppq_bypass == e.force_ppq_bypass,
        unencrypted::plain_application(e).link == e.link,
        unencrypted::plain_application(e).ext_info_link == e.ext_info_link,
{
}

/// Decrypting an encrypted repository gives back the repository: where the
/// sealed repository was made by `encrypt` and the items read from its
/// payload are the sealed items of the plain repository (`encrypted_items`),
/// `decrypt` gives the same information, categories and items.
pub proof fn law_repository_roundtrip(
    plain: unencrypted::Repository,
    sealed: Repository,
    items: Seq<Item>,
    back: unencrypted::Repository,
)
    requires
        sealed.schema_version == plain.schema_version,
        sealed.info == plain.info,
        sealed.categories == plain.categories,
        items == plain.applications@.map_values(|i: unencrypted::Item| sealed_item(i)),
        back.schema_version == sealed.schema_version,
        back.info == sealed.info,
        back.categories == sealed.categories,
        back.applications@ == items.map_values(|e: Item| plain_item(e)),
    ensures
        back.schema_version == plain.schema_version,
        back.info == plain.info,
        back.categories == plain.categories,
        back.applications@ == plain.applications@,
{
    assert forall|i: int| 0 <= i < plain.applications@.len() implies back.applications@[i] == plain.applications@[i] by {
        law_item_roundtrip(plain.applications@[i]);
    }
    assert(back.applications@ =~= plain.applications@);
}

} // verus!
