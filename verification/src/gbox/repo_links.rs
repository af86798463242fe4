//! Hiding the content links of a plain repository behind identifiers, the
//! links map that tells them again, and putting the URLs back.
use vstd::prelude::*;
use crate::gbox::gbox_link::{digest_text, link_digest, GboxLink, LinkView};
use crate::gbox::links_map::{links_map_of, LinksMap};
use crate::gbox::unencrypted::{Item, ItemApplication, ItemFile, ItemLink, ItemShareing, Repository};
use crate::pairs::reversed;

verus! {

/// The optional link as a list of zero or one link.
pub open spec fn opt_links(l: Option<GboxLink>) -> Seq<GboxLink> {
    match l {
        Some(x) => seq![x],
        None => Seq::empty(),
    }
}

/// The links of an item that lead to its content, in order: an app's package
/// and plist (also of an App Store app), a link item's target, a file's
/// download. Images are not among them.
pub open spec fn item_links(i: Item) -> Seq<GboxLink> {
    match i {
        Item::SelfSign(a) | Item::EnterpriseSign(a) => opt_links(a.link) + opt_links(a.ext_info_link),
        Item::Link(l) => opt_links(l.link),
        Item::Shareing(s) => opt_links(s.link) + opt_links(s.ext_info_link),
        Item::File(f) => seq![f.link],
    }
}

/// The content links of a list of items, item after item.
pub open spec fn content_links(items: Seq<Item>) -> Seq<GboxLink>
    decreases items.len(),
{
    if items.len() == 0 {
        Seq::empty()
    } else {
        content_links(items.drop_last()) + item_links(items.last())
    }
}

/// The link texts of a list of links.
pub open spec fn link_views(links: Seq<GboxLink>) -> Seq<LinkView> {
    links.map_values(|l: GboxLink| l@)
}

/// Two optional links are both absent, or both present and related by `rel`.
pub open spec fn opt_related(a: Option<GboxLink>, b: Option<GboxLink>, rel: spec_fn(GboxLink, GboxLink) -> bool) -> bool {
    match (a, b) {
        (None, None) => true,
        (Some(x), Some(y)) => rel(x, y),
        _ => false,
    }
}

/// `b` is the item `a` with each content link related by `rel` to the one it
/// replaces; everything else is kept.
pub open spec fn item_links_related(a: Item, b: Item, rel: spec_fn(GboxLink, GboxLink) -> bool) -> bool {
    match (a, b) {
        (Item::SelfSign(x), Item::SelfSign(y)) | (Item::EnterpriseSign(x), Item::EnterpriseSign(y)) => x.base == y.base
            && opt_related(x.link, y.link, rel) && opt_related(x.ext_info_link, y.ext_info_link, rel),
        (Item::Link(x), Item::Link(y)) => x.base == y.base && opt_related(x.link, y.link, rel),
        (Item::Shareing(x), Item::Shareing(y)) => x.base == y.base
            && opt_related(x.link, y.link, rel) && opt_related(x.ext_info_link, y.ext_info_link, rel),
        (Item::File(x), Item::File(y)) => x.base == y.base && rel(x.link, y.link),
        _ => false,
    }
}

/// Each item of `b` is the item of `a` at the same position with its content
/// links related by `rel`.
pub open spec fn items_links_related(a: Seq<Item>, b: Seq<Item>, rel: spec_fn(GboxLink, GboxLink) -> bool) -> bool {
    a.len() == b.len() && forall|i: int| 0 <= i < a.len() ==> #[trigger] item_links_related(a[i], b[i], rel)
}

/// `b` is the identifier of `a`.
pub open spec fn obscured() -> spec_fn(GboxLink, GboxLink) -> bool {
    |a: GboxLink, b: GboxLink| b@ == LinkView::Digest(link_digest(a@))
}

/// `b` is `a` with an identifier that `m` knows replaced by its link.
pub open spec fn normalized(m: Map<Seq<char>, LinkView>) -> spec_fn(GboxLink, GboxLink) -> bool {
    |a: GboxLink, b: GboxLink|
        match a@ {
            LinkView::Digest(d) => if m.contains_key(d) {
                b@ == m[d]
            } else {
                b == a
            },
            LinkView::Url(_) => b == a,
        }
}

/// `b` tells the same link as `a`.
pub open spec fn same_link() -> spec_fn(GboxLink, GboxLink) -> bool {
    |a: GboxLink, b: GboxLink| b@ == a@
}

/// The identifier of a link.
fn obscure_link(l: GboxLink) -> (res: GboxLink)
    ensures
        obscured()(l, res),
{
    l.into_digest()
}

/// The link that an identifier stands for in `map`, where it knows it;
/// other links are kept.
fn normalize_link(l: GboxLink, map: &LinksMap) -> (res: GboxLink)
    ensures
        normalized(map@)(l, res),
{
    match l {
        GboxLink::Digest(d) => match map.get(d.as_str()) {
            Some(link) => link.clone(),
            None => GboxLink::Digest(d),
        },
        GboxLink::Url(u) => GboxLink::Url(u),
    }
}

/// The identifier of an optional link.
fn obscure_opt(l: Option<GboxLink>) -> (res: Option<GboxLink>)
    ensures
        opt_related(l, res, obscured()),
{
    match l {
        Some(x) => Some(obscure_link(x)),
        None => None,
    }
}

/// An optional link with an identifier that `map` knows replaced by its link.
fn normalize_opt(l: Option<GboxLink>, map: &LinksMap) -> (res: Option<GboxLink>)
    ensures
        opt_related(l, res, normalized(map@)),
{
    match l {
        Some(x) => Some(normalize_link(x, map)),
        None => None,
    }
}

/// The item with its content links replaced by their identifiers.
fn obscure_item(item: Item) -> (res: Item)
    ensures
        item_links_related(item, res, obscured()),
{
    match item {
        Item::SelfSign(a) => Item::SelfSign(
            ItemApplication { base: a.base, link: obscure_opt(a.link), ext_info_link: obscure_opt(a.ext_info_link) },
        ),
        Item::EnterpriseSign(a) => Item::EnterpriseSign(
            ItemApplication { base: a.base, link: obscure_opt(a.link), ext_info_link: obscure_opt(a.ext_info_link) },
        ),
        Item::Link(l) => Item::Link(ItemLink { base: l.base, link: obscure_opt(l.link) }),
        Item::Shareing(s) => Item::Shareing(
            ItemShareing { base: s.base, link: obscure_opt(s.link), ext_info_link: obscure_opt(s.ext_info_link) },
        ),
        Item::File(f) => Item::File(ItemFile { base: f.base, link: obscure_link(f.link) }),
    }
}

/// The item with each content identifier that `map` knows replaced by its link.
fn normalize_item(item: Item, map: &LinksMap) -> (res: Item)
    ensures
        item_links_related(item, res, normalized(map@)),
{
    match item {
        Item::SelfSign(a) => Item::SelfSign(
            ItemApplication { base: a.base, link: normalize_opt(a.link, map), ext_info_link: normalize_opt(a.ext_info_link, map) },
        ),
        Item::EnterpriseSign(a) => Item::EnterpriseSign(
            ItemApplication { base: a.base, link: normalize_opt(a.link, map), ext_info_link: normalize_opt(a.ext_info_link, map) },
        ),
        Item::Link(l) => Item::Link(ItemLink { base: l.base, link: normalize_opt(l.link, map) }),
        Item::Shareing(s) => Item::Shareing(
            ItemShareing { base: s.base, link: normalize_opt(s.link, map), ext_info_link: normalize_opt(s.ext_info_link, map) },
        ),
        Item::File(f) => Item::File(ItemFile { base: f.base, link: normalize_link(f.link, map) }),
    }
}

/// The content links of the items, in order.
fn collect_links(items: &Vec<Item>) -> (res: Vec<GboxLink>)
    ensures
        res@ == content_links(items@),
{
    let mut res: Vec<GboxLink> = Vec::new();
    let mut i: usize = 0;
    while i < items.len()
        invariant
            i <= items@.len(),
            res@ == content_links(items@.subrange(0, i as int)),
        decreases items@.len() - i,
    {
        proof {
            let next = items@.subrange(0, i + 1);
            assert(next.drop_last() =~= items@.subrange(0, i as int));
            assert(next.last() == items@[i as int]);
        }
        let ghost before = res@;
        match &items[i] {
            Item::SelfSign(a) | Item::EnterpriseSign(a) => {
                match &a.link {
                    Some(l) => res.push(l.clone()),
                    None => {},
                }
                let ghost mid = res@;
                match &a.ext_info_link {
                    Some(l) => res.push(l.clone()),
                    None => {},
                }
                proof {
                    assert(mid =~= before + opt_links(a.link));
                    assert(res@ =~= mid + opt_links(a.ext_info_link));
                    assert(res@ =~= before + (opt_links(a.link) + opt_links(a.ext_info_link)));
                }
            },
            Item::Link(l) => {
                match &l.link {
                    Some(x) => res.push(x.clone()),
                    None => {},
                }
                proof {
                    assert(res@ =~= before + opt_links(l.link));
                }
            },
            Item::Shareing(s) => {
                match &s.link {
                    Some(l) => res.push(l.clone()),
                    None => {},
                }
                let ghost mid = res@;
                match &s.ext_info_link {
                    Some(l) => res.push(l.clone()),
                    None => {},
                }
                proof {
                    assert(mid =~= before + opt_links(s.link));
                    assert(res@ =~= mid + opt_links(s.ext_info_link));
                    assert(res@ =~= before + (opt_links(s.link) + opt_links(s.ext_info_link)));
                }
            },
            Item::File(f) => {
                res.push(f.link.clone());
                proof {
                    assert(res@ =~= before + seq![f.link]);
                }
            },
        }
        i = i + 1;
    }
    proof {
        assert(items@.subrange(0, items@.len() as int) =~= items@);
    }
    res
}

impl Repository {
    /// The links map of the repository: each content link that is a URL under
    /// its identifier, a later link winning over an earlier one with the same
    /// identifier.
    pub fn create_links_map(&self) -> (res: LinksMap)
        ensures
            res@ == links_map_of(link_views(content_links(self.applications@))),
    {
        let links = collect_links(&self.applications);
        LinksMap::from_links(links)
    }

    /// Replaces each content link of each item by its identifier; the rest is kept.
    pub fn obfuscate_links(&mut self)
        ensures
            final(self).schema_version == old(self).schema_version,
            final(self).info == old(self).info,
            final(self).categories == old(self).categories,
            items_links_related(old(self).applications@, final(self).applications@, obscured()),
    {
        let mut items: Vec<Item> = Vec::new();
        std::mem::swap(&mut items, &mut self.applications);
        let ghost src = items@;
        let n = items.len();
        let mut out: Vec<Item> = Vec::new();
        let mut rest = reversed(items);
        let mut i: usize = 0;
        while rest.len() > 0
            invariant
                i + rest@.len() == n,
                n == src.len(),
                forall|k: int| 0 <= k < rest@.len() ==> #[trigger] rest@[k] == src[src.len() - 1 - k],
                items_links_related(src.subrange(0, i as int), out@, obscured()),
            decreases rest@.len(),
        {
            let item = rest.pop().unwrap();
            let ghost before = out@;
            proof {
                assert(item == src[i as int]);
            }
            out.push(obscure_item(item));
            proof {
                assert forall|k: int| 0 <= k < i + 1 implies #[trigger] item_links_related(src.subrange(0, i + 1)[k], out@[k], obscured()) by {
                    if k < i {
                        assert(src.subrange(0, i + 1)[k] == src.subrange(0, i as int)[k]);
                        assert(out@[k] == before[k]);
                    }
                }
            }
            i = i + 1;
        }
        proof {
            assert(src.subrange(0, src.len() as int) =~= src);
        }
        self.applications = out;
    }

    /// Replaces each content identifier that `map` knows by its link; the rest
    /// is kept.
    pub fn normalize_links(&mut self, map: &LinksMap)
        ensures
            final(self).schema_version == old(self).schema_version,
            final(self).info == old(self).info,
            final(self).categories == old(self).categories,
            items_links_related(old(self).applications@, final(self).applications@, normalized(map@)),
    {
        let mut items: Vec<Item> = Vec::new();
        std::mem::swap(&mut items, &mut self.applications);
        let ghost src = items@;
        let n = items.len();
        let mut out: Vec<Item> = Vec::new();
        let mut rest = reversed(items);
        let mut i: usize = 0;
        while rest.len() > 0
            invariant
                i + rest@.len() == n,
                n == src.len(),
                forall|k: int| 0 <= k < rest@.len() ==> #[trigger] rest@[k] == src[src.len() - 1 - k],
                items_links_related(src.subrange(0, i as int), out@, normalized(map@)),
            decreases rest@.len(),
        {
            let item = rest.pop().unwrap();
            let ghost before = out@;
            proof {
                assert(item == src[i as int]);
            }
            out.push(normalize_item(item, map));
            proof {
                assert forall|k: int| 0 <= k < i + 1 implies #[trigger] item_links_related(src.subrange(0, i + 1)[k], out@[k], normalized(map@)) by {
                    if k < i {
                        assert(src.subrange(0, i + 1)[k] == src.subrange(0, i as int)[k]);
                        assert(out@[k] == before[k]);
                    }
                }
            }
            i = i + 1;
        }
        proof {
            assert(src.subrange(0, src.len() as int) =~= src);
        }
        self.applications = out;
    }
}

/// No two content links share an identifier, except a URL with itself: a
/// URL's identifier is neither that of another URL nor an identifier link.
pub open spec fn identifiers_unambiguous(links: Seq<LinkView>) -> bool {
    forall|i: int, j: int|
        0 <= i < links.len() && 0 <= j < links.len() && links[i] is Url && #[trigger] link_digest(links[i])
            == #[trigger] link_digest(links[j]) ==> links[i] == links[j]
}

/// The links map of a list of links holds the identifier of each URL among
/// them, and each identifier it holds is that of a URL among them, which it
/// stands for.
pub proof fn lemma_links_map_of(links: Seq<LinkView>)
    ensures
        forall|i: int| 0 <= i < links.len() && links[i] is Url ==> #[trigger] links_map_of(links).contains_key(
            link_digest(links[i]),
        ),
        forall|k: Seq<char>| #[trigger] links_map_of(links).contains_key(k) ==> exists|i: int|
            0 <= i < links.len() && links[i] is Url && link_digest(links[i]) == k && #[trigger] links[i]
                == links_map_of(links)[k],
    decreases links.len(),
{
    if links.len() > 0 {
        let t = links.drop_last();
        let n = links.len() - 1;
        lemma_links_map_of(t);
        assert forall|i: int| 0 <= i < t.len() implies t[i] == links[i] by {}
        let m = links_map_of(links);
        let mt = links_map_of(t);
        assert forall|k: Seq<char>| #[trigger] m.contains_key(k) implies exists|i: int|
            0 <= i < links.len() && links[i] is Url && link_digest(links[i]) == k && #[trigger] links[i] == m[k] by {
            if links[n] is Url && k == link_digest(links[n]) {
                assert(links[n] == m[k]);
            } else {
                assert(mt.contains_key(k));
                let i = choose|i: int| 0 <= i < t.len() && t[i] is Url && link_digest(t[i]) == k && #[trigger] t[i] == mt[k];
                assert(links[i] == m[k]);
            }
        }
    }
}

/// A content link, hidden and looked up again in the links map of
/// unambiguous links among which it is, is the same link.
pub proof fn lemma_link_restored(views: Seq<LinkView>, a: GboxLink, b: GboxLink, c: GboxLink)
    requires
        identifiers_unambiguous(views),
        views.contains(a@),
        obscured()(a, b),
        normalized(links_map_of(views))(b, c),
    ensures
        same_link()(a, c),
{
    lemma_links_map_of(views);
    let m = links_map_of(views);
    let i = choose|i: int| 0 <= i < views.len() && views[i] == a@;
    let d = link_digest(a@);
    if a@ is Url {
        assert(m.contains_key(link_digest(views[i])));
        let j = choose|j: int|
            0 <= j < views.len() && views[j] is Url && link_digest(views[j]) == d && #[trigger] views[j] == m[d];
        assert(link_digest(views[j]) == link_digest(views[i]));
    } else {
        if m.contains_key(d) {
            let j = choose|j: int|
                0 <= j < views.len() && views[j] is Url && link_digest(views[j]) == d && #[trigger] views[j] == m[d];
            assert(link_digest(views[j]) == link_digest(views[i]));
        }
    }
}

/// Each content link of the item at position `i` is among the content links
/// of the list.
pub proof fn lemma_item_links_in(items: Seq<Item>, i: int)
    requires
        0 <= i < items.len(),
    ensures
        forall|l: GboxLink| item_links(items[i]).contains(l) ==> #[trigger] content_links(items).contains(l),
    decreases items.len(),
{
    let n = items.len() - 1;
    let t = items.drop_last();
    if i < n {
        lemma_item_links_in(t, i);
        assert(t[i] == items[i]);
        assert forall|l: GboxLink| item_links(items[i]).contains(l) implies #[trigger] content_links(items).contains(l) by {
            assert(item_links(t[i]).contains(l));
            assert(content_links(t).contains(l));
            let k = choose|k: int| 0 <= k < content_links(t).len() && content_links(t)[k] == l;
            assert(content_links(items) == content_links(t) + item_links(items.last()));
            assert(content_links(items)[k] == l);
        }
    } else {
        assert forall|l: GboxLink| item_links(items[i]).contains(l) implies #[trigger] content_links(items).contains(l) by {
            let k = choose|k: int| 0 <= k < item_links(items[i]).len() && item_links(items[i])[k] == l;
            assert(content_links(items)[content_links(t).len() + k] == l);
        }
    }
}

/// An optional link, hidden and looked up again, is the same link.
proof fn lemma_opt_restored(views: Seq<LinkView>, a: Option<GboxLink>, b: Option<GboxLink>, c: Option<GboxLink>)
    requires
        identifiers_unambiguous(views),
        a matches Some(x) ==> views.contains(x@),
        opt_related(a, b, obscured()),
        opt_related(b, c, normalized(links_map_of(views))),
    ensures
        opt_related(a, c, same_link()),
{
    if let Some(x) = a {
        lemma_link_restored(views, x, b->0, c->0);
    }
}

/// An item whose content links are among unambiguous links, hidden and looked
/// up again in their links map, has the same links.
proof fn lemma_item_restored(views: Seq<LinkView>, x: Item, y: Item, z: Item)
    requires
        identifiers_unambiguous(views),
        forall|l: GboxLink| item_links(x).contains(l) ==> views.contains(#[trigger] l@),
        item_links_related(x, y, obscured()),
        item_links_related(y, z, normalized(links_map_of(views))),
    ensures
        item_links_related(x, z, same_link()),
{
    match (x, y, z) {
        (Item::SelfSign(a), Item::SelfSign(b), Item::SelfSign(c)) | (
            Item::EnterpriseSign(a),
            Item::EnterpriseSign(b),
            Item::EnterpriseSign(c),
        ) => {
            if let Some(l) = a.link {
                assert(item_links(x)[0] == l);
            }
            if let Some(l) = a.ext_info_link {
                assert(item_links(x)[opt_links(a.link).len() as int] == l);
            }
            lemma_opt_restored(views, a.link, b.link, c.link);
            lemma_opt_restored(views, a.ext_info_link, b.ext_info_link, c.ext_info_link);
        },
        (Item::Link(a), Item::Link(b), Item::Link(c)) => {
            if let Some(l) = a.link {
                assert(item_links(x)[0] == l);
            }
            lemma_opt_restored(views, a.link, b.link, c.link);
        },
        (Item::Shareing(a), Item::Shareing(b), Item::Shareing(c)) => {
            if let Some(l) = a.link {
                assert(item_links(x)[0] == l);
            }
            if let Some(l) = a.ext_info_link {
                assert(item_links(x)[opt_links(a.link).len() as int] == l);
            }
            lemma_opt_restored(views, a.link, b.link, c.link);
            lemma_opt_restored(views, a.ext_info_link, b.ext_info_link, c.ext_info_link);
        },
        (Item::File(a), Item::File(b), Item::File(c)) => {
            assert(item_links(x)[0] == a.link);
            lemma_link_restored(views, a.link, b.link, c.link);
        },
        _ => {},
    }
}

/// Looking the hidden links of a repository up in its own links map gives
/// back the links it had, where no two of them share an identifier (other
/// than a URL with itself): `normalize_links` with the map of
/// `create_links_map` undoes `obfuscate_links`.
pub proof fn law_normalize_undoes_obfuscate(items: Seq<Item>, hidden: Seq<Item>, restored: Seq<Item>)
    requires
        identifiers_unambiguous(link_views(content_links(items))),
        items_links_related(items, hidden, obscured()),
        items_links_related(hidden, restored, normalized(links_map_of(link_views(content_links(items))))),
    ensures
        items_links_related(items, restored, same_link()),
{
    let views = link_views(content_links(items));
    assert forall|i: int| 0 <= i < items.len() implies #[trigger] item_links_related(items[i], restored[i], same_link()) by {
        lemma_item_links_in(items, i);
        assert forall|l: GboxLink| item_links(items[i]).contains(l) implies views.contains(#[trigger] l@) by {
            assert(content_links(items).contains(l));
            let k = choose|k: int| 0 <= k < content_links(items).len() && content_links(items)[k] == l;
            assert(views[k] == l@);
        }
        assert(item_links_related(items[i], hidden[i], obscured()));
        assert(item_links_related(hidden[i], restored[i], normalized(links_map_of(views))));
        lemma_item_restored(views, items[i], hidden[i], restored[i]);
    }
}

} // verus!

verus! {

/// Two pairs of optional links related place by place give content link
/// lists of the same length, related place by place.
proof fn lemma_opt_pairs(
    a1: Option<GboxLink>,
    a2: Option<GboxLink>,
    b1: Option<GboxLink>,
    b2: Option<GboxLink>,
    rel: spec_fn(GboxLink, GboxLink) -> bool,
)
    requires
        opt_related(a1, b1, rel),
        opt_related(a2, b2, rel),
    ensures
        (opt_links(b1) + opt_links(b2)).len() == (opt_links(a1) + opt_links(a2)).len(),
        forall|k: int|
            0 <= k < (opt_links(a1) + opt_links(a2)).len() ==> rel(
                #[trigger] (opt_links(a1) + opt_links(a2))[k],
                (opt_links(b1) + opt_links(b2))[k],
            ),
{
    let xs = opt_links(a1) + opt_links(a2);
    let ys = opt_links(b1) + opt_links(b2);
    assert forall|k: int| 0 <= k < xs.len() implies rel(#[trigger] xs[k], ys[k]) by {
        if k < opt_links(a1).len() {
            assert(xs[k] == opt_links(a1)[k]);
            assert(ys[k] == opt_links(b1)[k]);
        } else {
            assert(xs[k] == opt_links(a2)[k - opt_links(a1).len()]);
            assert(ys[k] == opt_links(b2)[k - opt_links(b1).len()]);
        }
    }
}

/// Two items whose content links are related by `rel` have as many content
/// links, each related to the one at the same place.
pub proof fn lemma_item_links_pairwise(x: Item, y: Item, rel: spec_fn(GboxLink, GboxLink) -> bool)
    requires
        item_links_related(x, y, rel),
    ensures
        item_links(y).len() == item_links(x).len(),
        forall|k: int| 0 <= k < item_links(x).len() ==> rel(#[trigger] item_links(x)[k], item_links(y)[k]),
{
    match (x, y) {
        (Item::SelfSign(a), Item::SelfSign(b)) | (Item::EnterpriseSign(a), Item::EnterpriseSign(b)) => {
            lemma_opt_pairs(a.link, a.ext_info_link, b.link, b.ext_info_link, rel);
        },
        (Item::Shareing(a), Item::Shareing(b)) => {
            lemma_opt_pairs(a.link, a.ext_info_link, b.link, b.ext_info_link, rel);
        },
        (Item::Link(a), Item::Link(b)) => {
            lemma_opt_pairs(a.link, None, b.link, None, rel);
            assert(opt_links(a.link) + opt_links(None) =~= opt_links(a.link));
            assert(opt_links(b.link) + opt_links(None) =~= opt_links(b.link));
        },
        (Item::File(a), Item::File(b)) => {},
        _ => {},
    }
}

/// Restoring links keeps every content link that is a URL as it is; an
/// identifier that the links map knows becomes the link the map gives for it,
/// and an identifier it does not know stays.
pub proof fn law_normalize_keeps_urls(m: Map<Seq<char>, LinkView>, items: Seq<Item>, restored: Seq<Item>)
    requires
        items_links_related(items, restored, normalized(m)),
    ensures
        restored.len() == items.len(),
        forall|i: int, k: int|
            #![trigger item_links(items[i])[k]]
            0 <= i < items.len() && 0 <= k < item_links(items[i]).len() ==> {
                let a = item_links(items[i])[k];
                let b = item_links(restored[i])[k];
                &&& item_links(restored[i]).len() == item_links(items[i]).len()
                &&& (a is Url ==> b == a)
                &&& (a matches GboxLink::Digest(d) ==> if m.contains_key(d@) {
                    b@ == m[d@]
                } else {
                    b == a
                })
            },
{
    assert forall|i: int, k: int|
        #![trigger item_links(items[i])[k]]
        0 <= i < items.len() && 0 <= k < item_links(items[i]).len() implies {
            let a = item_links(items[i])[k];
            let b = item_links(restored[i])[k];
            &&& item_links(restored[i]).len() == item_links(items[i]).len()
            &&& (a is Url ==> b == a)
            &&& (a matches GboxLink::Digest(d) ==> if m.contains_key(d@) {
                b@ == m[d@]
            } else {
                b == a
            })
        } by {
        assert(item_links_related(items[i], restored[i], normalized(m)));
        lemma_item_links_pairwise(items[i], restored[i], normalized(m));
        assert(normalized(m)(item_links(items[i])[k], item_links(restored[i])[k]));
    }
}

/// Hiding links leaves no URL among the content links: each URL becomes the
/// identifier computed from its text, and each identifier stays as it is.
pub proof fn law_obfuscate_hides_every_url(items: Seq<Item>, hidden: Seq<Item>)
    requires
        items_links_related(items, hidden, obscured()),
    ensures
        hidden.len() == items.len(),
        forall|i: int, k: int|
            #![trigger item_links(items[i])[k]]
            0 <= i < items.len() && 0 <= k < item_links(items[i]).len() ==> {
                let a = item_links(items[i])[k];
                let b = item_links(hidden[i])[k];
                &&& item_links(hidden[i]).len() == item_links(items[i]).len()
                &&& b is Digest
                &&& (a matches GboxLink::Url(u) ==> b@ == LinkView::Digest(digest_text(u@)))
                &&& (a is Digest ==> b@ == a@)
            },
{
    assert forall|i: int, k: int|
        #![trigger item_links(items[i])[k]]
        0 <= i < items.len() && 0 <= k < item_links(items[i]).len() implies {
            let a = item_links(items[i])[k];
            let b = item_links(hidden[i])[k];
            &&& item_links(hidden[i]).len() == item_links(items[i]).len()
            &&& b is Digest
            &&& (a matches GboxLink::Url(u) ==> b@ == LinkView::Digest(digest_text(u@)))
            &&& (a is Digest ==> b@ == a@)
        } by {
        assert(item_links_related(items[i], hidden[i], obscured()));
        lemma_item_links_pairwise(items[i], hidden[i], obscured());
        assert(obscured()(item_links(items[i])[k], item_links(hidden[i])[k]));
    }
}

} // verus!
