//! The keys that seal GBox repositories, by the GBox version from which on
//! they are in use.
use vstd::prelude::*;
use crate::text::{chars_of, is_digit, string_of};

verus! {

/// What `version_compare::compare_to(a, b, Cmp::Ge)` answers: whether version
/// `a` is at least version `b`, `None` where either is not a version.
pub uninterp spec fn version_at_least(a: Seq<char>, b: Seq<char>) -> Option<bool>;

/// `version_compare::compare_to` with `Cmp::Ge`.
#[verifier::external_body]
fn compare_versions_ge(a: &str, b: &str) -> (res: Option<bool>)
    ensures
        res == version_at_least(a@, b@),
{
    version_compare::compare_to(a, b, version_compare::Cmp::Ge).ok()
}

/// The keys of one GBox version.
#[derive(Debug, PartialEq, Eq, Hash)]
pub struct CryptKeys {
    /// The first GBox version that uses these keys.
    pub gbox_version: String,
    /// The password of repository payloads.
    pub primary: String,
    /// The password of links maps.
    pub kvp: String,
    /// The public key (DER, in Base64) that opens the remote app configuration.
    pub config_pubkey: String,
}

impl Clone for CryptKeys {
    fn clone(&self) -> (res: Self)
        ensures
            res == *self,
    {
        CryptKeys {
            gbox_version: self.gbox_version.clone(),
            primary: self.primary.clone(),
            kvp: self.kvp.clone(),
            config_pubkey: self.config_pubkey.clone(),
        }
    }
}

/// The keys of all known GBox versions, oldest first. There is at least one.
#[derive(Debug)]
pub struct CryptKeysStorage(Vec<CryptKeys>);

/// The digits of a version text, in order, everything else left out.
pub open spec fn version_digits(version: Seq<char>) -> Seq<char> {
    version.filter(|c: char| is_digit(c))
}

/// Whether keys serve a version with the digits `digits`.
pub open spec fn serves(keys: CryptKeys, digits: Seq<char>) -> bool {
    version_at_least(digits, keys.gbox_version@) == Some(true)
}

impl View for CryptKeysStorage {
    type V = Seq<CryptKeys>;

    closed spec fn view(&self) -> Seq<CryptKeys> {
        self.0@
    }
}

impl CryptKeysStorage {
    #[verifier::type_invariant]
    spec fn not_empty(self) -> bool {
        self.0@.len() > 0
    }

    /// A storage with the given keys, oldest first; `None` where there are none.
    pub fn from_keys(keys: Vec<CryptKeys>) -> (res: Option<CryptKeysStorage>)
        ensures
            match res {
                Some(s) => s@ == keys@,
                None => keys@.len() == 0,
            },
    {
        if keys.len() == 0 {
            None
        } else {
            Some(CryptKeysStorage(keys))
        }
    }

    /// There is at least one set of keys.
    pub fn len(&self) -> (res: usize)
        ensures
            res == self@.len(),
            res >= 1,
    {
        proof {
            use_type_invariant(self);
        }
        self.0.len()
    }

    /// The keys, oldest first.
    pub fn as_slice(&self) -> (res: &[CryptKeys])
        ensures
            res@ == self@,
    {
        self.0.as_slice()
    }

    /// The keys of the newest GBox version: the last ones.
    pub fn newest_keys(&self) -> (res: &CryptKeys)
        ensures
            self@.len() > 0,
            *res == self@.last(),
    {
        proof {
            use_type_invariant(self);
        }
        let n = self.0.len();
        &self.0[n - 1]
    }

    /// The keys for a GBox version: the last keys whose version the given one
    /// (its digits only) is at least; `None` where no keys serve it.
    pub fn keys_for_version(&self, version: &str) -> (res: Option<&CryptKeys>)
        ensures
            match res {
                Some(k) => exists|i: int|
                    0 <= i < self@.len() && self@[i] == *k && serves(self@[i], version_digits(version@))
                        && forall|j: int| i < j < self@.len() ==> !serves(#[trigger] self@[j], version_digits(version@)),
                None => forall|j: int| 0 <= j < self@.len() ==> !serves(#[trigger] self@[j], version_digits(version@)),
            },
    {
        let digits = digits_of(version);
        let mut i = self.0.len();
        while i > 0
            invariant
                i <= self@.len(),
                digits@ == version_digits(version@),
                forall|j: int| i <= j < self@.len() ==> !serves(#[trigger] self@[j], version_digits(version@)),
            decreases i,
        {
            let keys = &self.0[i - 1];
            if compare_versions_ge(digits.as_str(), keys.gbox_version.as_str()) == Some(true) {
                return Some(keys);
            }
            i = i - 1;
        }
        None
    }
}

/// The digits of a version text.
fn digits_of(version: &str) -> (res: String)
    ensures
        res@ == version_digits(version@),
{
    let cs = chars_of(version);
    let mut digits: Vec<char> = Vec::new();
    let mut i: usize = 0;
    while i < cs.len()
        invariant
            i <= cs@.len(),
            cs@ == version@,
            digits@ == cs@.subrange(0, i as int).filter(|c: char| is_digit(c)),
        decreases cs@.len() - i,
    {
        proof {
            let next = cs@.subrange(0, i + 1);
            assert(next.drop_last() =~= cs@.subrange(0, i as int));
            reveal_with_fuel(Seq::<char>::filter, 1);
        }
        if '0' <= cs[i] && cs[i] <= '9' {
            digits.push(cs[i]);
        }
        i = i + 1;
    }
    proof {
        assert(cs@.subrange(0, cs@.len() as int) =~= cs@);
    }
    string_of(digits.as_slice())
}

/// Whether `k` are the keys that this library knows: those of GBox version 1
/// and later.
pub open spec fn is_known_keys(k: CryptKeys) -> bool {
    &&& k.gbox_version@ == "1"@
    &&& k.primary@ == "608ba6563a954bae2c806f98f75d6e0a"@
    &&& k.kvp@ == "606ea7867a9588ae2e806f98f75d8c08"@
    &&& k.config_pubkey@ == Seq::<char>::empty()
}

impl Default for CryptKeysStorage {
    /// The keys known to this library: those of GBox version 1 and later.
    fn default() -> (res: Self)
        ensures
            res@.len() == 1,
            is_known_keys(res@[0]),
    {
        let mut keys: Vec<CryptKeys> = Vec::new();
        keys.push(
            CryptKeys {
                gbox_version: "1".to_owned(),
                primary: "608ba6563a954bae2c806f98f75d6e0a".to_owned(),
                kvp: "606ea7867a9588ae2e806f98f75d8c08".to_owned(),
                config_pubkey: String::new(),
            },
        );
        CryptKeysStorage(keys)
    }
}

} // verus!
