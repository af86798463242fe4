//! The links map: which URL each 16 character identifier of an obfuscated
//! repository stands for, and the sealed form in which it is shipped.
use vstd::prelude::*;
use vstd::utf8::encode_utf8;
use crate::codec::{base64_decode, base64_decoding, base64_encode, base64_encoding, hex_lower, md5_digest, md5_hex};
use crate::error::GboxError;
use crate::gbox::gbox_link::{identifier_link, link_digest, link_text, GboxLink, LinkView};
use crate::instant::DateTime;
use crate::json::{json_object, json_string, push_json_string, write_object, pair_views};
use crate::pairs::{find_key, keys_distinct, lemma_pairs_map, pairs_map, upsert};
use crate::text::int_decimal;
use crate::web_url::Url;

verus! {

/// A request for the links map of a repository, as a device sends it.
#[derive(Debug)]
pub struct LinksMapRequest {
    pub access_code: String,
    pub udid: String,
    pub timestamp: DateTime,
}

/// The answer of a links map server.
#[derive(Debug)]
pub enum LinkMapResponse {
    Success { map: EncryptedLinksMap },
    Error { error: String },
}

/// A sealed links map: the MD5 of its JSON text, and its sealed JSON text in Base64.
#[derive(Debug, Clone)]
pub struct EncryptedLinksMap {
    pub mapping_hash: String,
    pub links_map: String,
}

/// Which link each identifier stands for. An identifier occurs once.
#[derive(Debug)]
pub struct LinksMap {
    entries: Vec<(String, GboxLink)>,
}

/// The map built by inserting `links` in order: each URL link under its
/// identifier, identifier links left out.
pub open spec fn links_map_of(links: Seq<LinkView>) -> Map<Seq<char>, LinkView>
    decreases links.len(),
{
    if links.len() == 0 {
        Map::empty()
    } else {
        let before = links_map_of(links.drop_last());
        let link = links.last();
        if link is Url {
            before.insert(link_digest(link), link)
        } else {
            before
        }
    }
}

/// `pairs` lists the entries of `m`, each key once, with the link texts.
pub open spec fn lists_map(pairs: Seq<(Seq<char>, Seq<char>)>, m: Map<Seq<char>, LinkView>) -> bool {
    &&& m.dom().finite()
    &&& pairs.len() == m.dom().len()
    &&& forall|i: int| 0 <= i < pairs.len() ==> #[trigger] m.contains_key(pairs[i].0)
        && link_text(m[pairs[i].0]) == pairs[i].1
    &&& forall|i: int, j: int| 0 <= i < j < pairs.len() ==> #[trigger] pairs[i].0 != #[trigger] pairs[j].0
    &&& forall|k: Seq<char>| m.contains_key(k) ==> exists|i: int| 0 <= i < pairs.len() && #[trigger] pairs[i].0 == k
}

/// The map of entries whose values are the links the texts stand for.
pub open spec fn parsed_entries_map(entries: Seq<(Seq<char>, Seq<char>)>) -> Map<Seq<char>, LinkView>
    decreases entries.len(),
{
    if entries.len() == 0 {
        Map::empty()
    } else {
        parsed_entries_map(entries.drop_last()).insert(
            entries.last().0,
            identifier_link(entries.last().1).unwrap(),
        )
    }
}

impl LinksMap {
    #[verifier::type_invariant]
    spec fn distinct(self) -> bool {
        keys_distinct(self.entries@)
    }

    /// The identifiers and link texts, in the order in which the map writes them.
    pub closed spec fn text_pairs(self) -> Seq<(Seq<char>, Seq<char>)> {
        self.entries@.map_values(|e: (String, GboxLink)| (e.0@, link_text(e.1@)))
    }

    /// An empty map.
    pub fn new() -> (res: LinksMap)
        ensures
            res@ == Map::<Seq<char>, LinkView>::empty(),
    {
        LinksMap { entries: Vec::new() }
    }

    /// Adds a URL link under its identifier, replacing the link that was there;
    /// an identifier link is not added.
    pub fn insert(&mut self, link: GboxLink)
        ensures
            final(self)@ == if link@ is Url {
                old(self)@.insert(link_digest(link@), link@)
            } else {
                old(self)@
            },
    {
        if link.is_url() {
            let digest = link.to_digest().into_string();
            self.set(digest, link);
        }
    }

    /// Sets the link of an identifier.
    fn set(&mut self, key: String, link: GboxLink)
        ensures
            final(self)@ == old(self)@.insert(key@, link@),
    {
        proof {
            use_type_invariant(&*self);
        }
        let mut entries: Vec<(String, GboxLink)> = Vec::new();
        std::mem::swap(&mut entries, &mut self.entries);
        upsert(&mut entries, key, link);
        self.entries = entries;
    }

    /// The link of an identifier.
    pub fn get(&self, digest: &str) -> (res: Option<&GboxLink>)
        ensures
            match res {
                Some(link) => self@.contains_key(digest@) && link@ == self@[digest@],
                None => !self@.contains_key(digest@),
            },
    {
        proof {
            use_type_invariant(self);
            lemma_pairs_map(self.entries@);
        }
        let key = digest.to_owned();
        match find_key(&self.entries, &key) {
            Some(i) => {
                proof {
                    assert(pairs_map(self.entries@).contains_key(self.entries@[i as int].0@));
                }
                Some(&self.entries[i].1)
            },
            None => None,
        }
    }

    /// The map of a sequence of links: each URL link under its identifier, a
    /// later link winning over an earlier one with the same identifier.
    pub fn from_links(links: Vec<GboxLink>) -> (res: LinksMap)
        ensures
            res@ == links_map_of(links@.map_values(|l: GboxLink| l@)),
    {
        let mut map = LinksMap::new();
        let mut i: usize = 0;
        while i < links.len()
            invariant
                i <= links@.len(),
                map@ == links_map_of(links@.subrange(0, i as int).map_values(|l: GboxLink| l@)),
            decreases links@.len() - i,
        {
            let l = links[i].clone();
            proof {
                let next = links@.subrange(0, i + 1).map_values(|l: GboxLink| l@);
                assert(next.drop_last() =~= links@.subrange(0, i as int).map_values(|l: GboxLink| l@));
                assert(next.last() == l@);
            }
            map.insert(l);
            i = i + 1;
        }
        proof {
            assert(links@.subrange(0, links@.len() as int) =~= links@);
        }
        map
    }

    /// The map of identifier and link-text pairs, as read from a links map
    /// object: a later pair wins over an earlier one with the same identifier;
    /// an error where a text stands for no link.
    pub fn from_entries(entries: Vec<(String, String)>) -> (res: Result<LinksMap, GboxError>)
        ensures
            match res {
                Ok(map) => (forall|i: int| 0 <= i < entries@.len() ==> identifier_link(#[trigger] entries@[i].1@) is Some)
                    && map@ == parsed_entries_map(pair_views(entries@)),
                Err(e) => (exists|i: int| 0 <= i < entries@.len() && identifier_link(#[trigger] entries@[i].1@) is None)
                    && e is InvalidLink,
            },
    {
        let mut map = LinksMap::new();
        let mut i: usize = 0;
        while i < entries.len()
            invariant
                i <= entries@.len(),
                forall|j: int| 0 <= j < i ==> identifier_link(#[trigger] entries@[j].1@) is Some,
                map@ == parsed_entries_map(pair_views(entries@.subrange(0, i as int))),
            decreases entries@.len() - i,
        {
            let key = entries[i].0.clone();
            let text = entries[i].1.clone();
            match GboxLink::from_identifier(text) {
                Ok(link) => {
                    proof {
                        let next = pair_views(entries@.subrange(0, i + 1));
                        assert(next.drop_last() =~= pair_views(entries@.subrange(0, i as int)));
                        assert(next.last() == (key@, entries@[i as int].1@));
                    }
                    map.set(key, link);
                },
                Err(e) => {
                    return Err(e);
                },
            }
            i = i + 1;
        }
        proof {
            assert(entries@.subrange(0, entries@.len() as int) =~= entries@);
        }
        Ok(map)
    }

    /// The identifier and link-text pairs, in the order in which the map writes them.
    pub fn text_entries(&self) -> (res: Vec<(String, String)>)
        ensures
            pair_views(res@) == self.text_pairs(),
            lists_map(self.text_pairs(), self@),
    {
        proof {
            use_type_invariant(self);
            lemma_pairs_map(self.entries@);
            let p = self.text_pairs();
            assert forall|k: Seq<char>| self@.contains_key(k) implies exists|i: int| 0 <= i < p.len() && #[trigger] p[i].0 == k by {
                let i = choose|i: int| 0 <= i < self.entries@.len() && #[trigger] self.entries@[i].0@ == k;
                assert(p[i].0 == k);
            }
            assert forall|i: int| 0 <= i < p.len() implies #[trigger] self@.contains_key(p[i].0)
                && link_text(self@[p[i].0]) == p[i].1 by {
                assert(p[i].0 == self.entries@[i].0@);
            }
            assert forall|i: int, j: int| 0 <= i < j < p.len() implies #[trigger] p[i].0 != #[trigger] p[j].0 by {
                assert(p[i].0 == self.entries@[i].0@);
                assert(p[j].0 == self.entries@[j].0@);
            }
        }
        let mut res: Vec<(String, String)> = Vec::new();
        let mut i: usize = 0;
        while i < self.entries.len()
            invariant
                i <= self.entries@.len(),
                pair_views(res@) =~= self.text_pairs().subrange(0, i as int),
            decreases self.entries@.len() - i,
        {
            let key = self.entries[i].0.clone();
            let text = self.entries[i].1.to_string();
            let ghost before = res@;
            res.push((key, text));
            proof {
                assert(res@ == before.push((key, text)));
                assert(pair_views(res@) =~= pair_views(before).push((key@, text@)));
                assert(self.text_pairs()[i as int] == (self.entries@[i as int].0@, link_text(self.entries@[i as int].1@)));
                assert(pair_views(res@) =~= self.text_pairs().subrange(0, i + 1));
            }
            i = i + 1;
        }
        res
    }

    /// The JSON text of the map: an object from identifier to link text.
    pub fn to_json(&self) -> (res: String)
        ensures
            res@ == json_object(self.text_pairs()),
            lists_map(self.text_pairs(), self@),
    {
        write_object(&self.text_entries())
    }

    /// The sealed form of this map, given `sealed`, the sealed bytes of its JSON
    /// text: the hash is the lowercase hexadecimal MD5 of the JSON text's UTF-8
    /// bytes, the payload is `sealed` in Base64.
    pub fn encrypt(&self, sealed: &[u8]) -> (res: EncryptedLinksMap)
        requires
            sealed@.len() <= usize::MAX / 4,
        ensures
            res.mapping_hash@ == hex_lower(md5_digest(encode_utf8(json_object(self.text_pairs())))),
            res.links_map@ == base64_encoding(sealed@),
            base64_decoding(res.links_map@) == Some(sealed@),
            lists_map(self.text_pairs(), self@),
    {
        let json = self.to_json();
        let mapping_hash = md5_hex(json.as_str().as_bytes());
        let links_map = base64_encode(sealed);
        EncryptedLinksMap { mapping_hash, links_map }
    }
}

impl View for LinksMap {
    type V = Map<Seq<char>, LinkView>;

    closed spec fn view(&self) -> Map<Seq<char>, LinkView> {
        pairs_map(self.entries@)
    }
}

impl Clone for LinksMap {
    fn clone(&self) -> (res: Self)
        ensures
            res@ == self@,
    {
        proof {
            use_type_invariant(self);
        }
        let mut entries: Vec<(String, GboxLink)> = Vec::new();
        let mut i: usize = 0;
        while i < self.entries.len()
            invariant
                i <= self.entries@.len(),
                keys_distinct(self.entries@),
                entries@ =~= self.entries@.subrange(0, i as int),
            decreases self.entries@.len() - i,
        {
            let e = (self.entries[i].0.clone(), self.entries[i].1.clone());
            entries.push(e);
            i = i + 1;
        }
        proof {
            assert(entries@ =~= self.entries@);
        }
        LinksMap { entries }
    }
}

impl Default for LinksMap {
    fn default() -> (res: LinksMap)
        ensures
            res@ == Map::<Seq<char>, LinkView>::empty(),
    {
        LinksMap::new()
    }
}

impl EncryptedLinksMap {
    /// The sealed bytes of the map's JSON text: the payload decoded from Base64.
    pub fn sealed_mapping(&self) -> (res: Result<Vec<u8>, GboxError>)
        ensures
            match res {
                Ok(v) => base64_decoding(self.links_map@) == Some(v@),
                Err(e) => base64_decoding(self.links_map@) is None && e is InvalidBase64,
            },
    {
        match base64_decode(self.links_map.as_str()) {
            Ok(v) => Ok(v),
            Err(e) => Err(GboxError::InvalidBase64(e)),
        }
    }
}

/// The JSON text of a links map request: the access code under `pwd`, the
/// UDID, and the timestamp as a string of seconds.
pub open spec fn request_json(access_code: Seq<char>, udid: Seq<char>, secs: int) -> Seq<char> {
    seq!['{'] + json_string("pwd"@) + seq![':'] + json_string(access_code) + seq![',']
        + json_string("udid"@) + seq![':'] + json_string(udid) + seq![',']
        + json_string("timestamp"@) + seq![':'] + json_string(int_decimal(secs)) + seq!['}']
}

impl LinksMapRequest {
    /// The password that seals a request to the server of `repo_url`: the
    /// lowercase hexadecimal MD5 of the URL's serialization.
    pub fn password(repo_url: &Url) -> (res: String)
        ensures
            res@ == hex_lower(md5_digest(encode_utf8(repo_url@))),
    {
        md5_hex(repo_url.as_str().as_bytes())
    }

    /// The JSON text of the request.
    pub fn to_json(&self) -> (res: String)
        ensures
            res@ == request_json(self.access_code@, self.udid@, self.timestamp.spec_secs() as int),
    {
        let mut out = String::new();
        out.push('{');
        push_json_string(&mut out, "pwd");
        out.push(':');
        push_json_string(&mut out, self.access_code.as_str());
        out.push(',');
        push_json_string(&mut out, "udid");
        out.push(':');
        push_json_string(&mut out, self.udid.as_str());
        out.push(',');
        push_json_string(&mut out, "timestamp");
        out.push(':');
        let secs = self.timestamp.format_seconds();
        push_json_string(&mut out, secs.as_str());
        out.push('}');
        proof {
            assert(out@ =~= request_json(self.access_code@, self.udid@, self.timestamp.spec_secs() as int));
        }
        out
    }

    /// The body sent to the server: the sealed request in Base64.
    pub fn encrypt(sealed: &[u8]) -> (res: String)
        requires
            sealed@.len() <= usize::MAX / 4,
        ensures
            res@ == base64_encoding(sealed@),
    {
        base64_encode(sealed)
    }

    /// The sealed request that a body holds: the body decoded from Base64.
    pub fn sealed_request(encrypted: &str) -> (res: Result<Vec<u8>, GboxError>)
        ensures
            match res {
                Ok(v) => base64_decoding(encrypted@) == Some(v@),
                Err(e) => base64_decoding(encrypted@) is None && e is InvalidBase64,
            },
    {
        match base64_decode(encrypted) {
            Ok(v) => Ok(v),
            Err(e) => Err(GboxError::InvalidBase64(e)),
        }
    }
}

/// Inserting a URL link makes its identifier look it up.
pub proof fn law_insert_then_get(before: LinksMap, after: LinksMap, link: LinkView)
    requires
        link is Url,
        after@ == before@.insert(link_digest(link), link),
    ensures
        after@.contains_key(link_digest(link)),
        after@[link_digest(link)] == link,
        forall|k: Seq<char>| k != link_digest(link) ==> (after@.contains_key(k) == before@.contains_key(k)),
{
}

} // verus!
