//! The KVP answer of a repository server: which URL each identifier of the
//! requested links stands for, as a hash and a sealed payload.
use vstd::prelude::*;
use vstd::utf8::encode_utf8;
use crate::codec::{base64_decoding, base64_encode, base64_encoding, hex_lower, md5_digest, md5_hex};
use crate::gbox::gbox_link::{link_digest, link_text, GboxLink, LinkView};
use crate::instant::DateTime;
use crate::json::{json_object, pair_views, write_object};
use crate::pairs::{keys_distinct, lemma_pairs_map, pairs_map, upsert};

verus! {

/// A KVP request of a device.
#[derive(Debug)]
pub struct KVPRequest {
    pub access_code: String,
    pub udid: String,
    pub timestamp: DateTime,
}

/// A KVP answer: the MD5 of the mapping's JSON text, and the sealed JSON text in Base64.
#[derive(Debug, Clone)]
pub struct Kvp {
    pub hash: String,
    pub payload: String,
}

/// The mapping of a KVP answer: each link's identifier to the link's text, a
/// later link winning over an earlier one with the same identifier.
pub open spec fn kvp_mapping(links: Seq<LinkView>) -> Map<Seq<char>, Seq<char>>
    decreases links.len(),
{
    if links.len() == 0 {
        Map::empty()
    } else {
        kvp_mapping(links.drop_last()).insert(link_digest(links.last()), link_text(links.last()))
    }
}

/// `pairs` lists the entries of `m`, each key once.
pub open spec fn lists_entries(pairs: Seq<(Seq<char>, Seq<char>)>, m: Map<Seq<char>, Seq<char>>) -> bool {
    &&& m.dom().finite()
    &&& pairs.len() == m.dom().len()
    &&& forall|i: int| 0 <= i < pairs.len() ==> #[trigger] m.contains_key(pairs[i].0) && m[pairs[i].0] == pairs[i].1
    &&& forall|i: int, j: int| 0 <= i < j < pairs.len() ==> #[trigger] pairs[i].0 != #[trigger] pairs[j].0
    &&& forall|k: Seq<char>| m.contains_key(k) ==> exists|i: int| 0 <= i < pairs.len() && #[trigger] pairs[i].0 == k
}

impl Kvp {
    /// The entries of the mapping of `links`, each identifier once.
    pub fn mapping(links: &Vec<GboxLink>) -> (res: Vec<(String, String)>)
        ensures
            lists_entries(pair_views(res@), kvp_mapping(links@.map_values(|l: GboxLink| l@))),
    {
        let mut entries: Vec<(String, String)> = Vec::new();
        let mut i: usize = 0;
        while i < links.len()
            invariant
                i <= links@.len(),
                keys_distinct(entries@),
                pairs_map(entries@) == kvp_mapping(links@.subrange(0, i as int).map_values(|l: GboxLink| l@)),
            decreases links@.len() - i,
        {
            let digest = links[i].to_digest().into_string();
            let text = links[i].to_string();
            proof {
                let next = links@.subrange(0, i + 1).map_values(|l: GboxLink| l@);
                assert(next.drop_last() =~= links@.subrange(0, i as int).map_values(|l: GboxLink| l@));
                assert(next.last() == links@[i as int]@);
            }
            upsert(&mut entries, digest, text);
            i = i + 1;
        }
        proof {
            assert(links@.subrange(0, links@.len() as int) =~= links@);
            let p = pair_views(entries@);
            lemma_pairs_map(entries@);
            assert forall|k: Seq<char>| pairs_map(entries@).contains_key(k) implies exists|j: int| 0 <= j < p.len() && #[trigger] p[j].0 == k by {
                let j = choose|j: int| 0 <= j < entries@.len() && #[trigger] entries@[j].0@ == k;
                assert(p[j].0 == k);
            }
            assert forall|j: int| 0 <= j < p.len() implies #[trigger] pairs_map(entries@).contains_key(p[j].0)
                && pairs_map(entries@)[p[j].0] == p[j].1 by {
                assert(p[j].0 == entries@[j].0@);
            }
            assert forall|a: int, b: int| 0 <= a < b < p.len() implies #[trigger] p[a].0 != #[trigger] p[b].0 by {
                assert(p[a].0 == entries@[a].0@);
                assert(p[b].0 == entries@[b].0@);
            }
        }
        entries
    }

    /// The JSON text of the mapping of `links`: an object from identifier to link text.
    pub fn payload_json(links: &Vec<GboxLink>) -> (res: String)
        ensures
            exists|p: Seq<(Seq<char>, Seq<char>)>|
                res@ == json_object(p) && lists_entries(p, kvp_mapping(links@.map_values(|l: GboxLink| l@))),
    {
        let entries = Kvp::mapping(links);
        write_object(&entries)
    }

    /// The answer for `links`, given `sealed`, the sealed bytes of their
    /// mapping's JSON text: the hash is the lowercase hexadecimal MD5 of the
    /// JSON text's UTF-8 bytes, the payload is `sealed` in Base64.
    pub fn new(links: &Vec<GboxLink>, sealed: &[u8]) -> (res: Kvp)
        requires
            sealed@.len() <= usize::MAX / 4,
        ensures
            exists|p: Seq<(Seq<char>, Seq<char>)>|
                res.hash@ == hex_lower(md5_digest(encode_utf8(json_object(p))))
                    && lists_entries(p, kvp_mapping(links@.map_values(|l: GboxLink| l@))),
            res.payload@ == base64_encoding(sealed@),
            base64_decoding(res.payload@) == Some(sealed@),
    {
        let json = Kvp::payload_json(links);
        let hash = md5_hex(json.as_str().as_bytes());
        let payload = base64_encode(sealed);
        Kvp { hash, payload }
    }
}

} // verus!
