//! Links of GBox items: either a URL or the 16 character identifier that
//! stands for a URL in an obfuscated repository.
use vstd::prelude::*;
use vstd::utf8::encode_utf8;
use crate::codec::{hex_encode, hex_lower, lemma_hex_lower_chars, md5, md5_digest, is_lower_hex_char};
use crate::error::GboxError;
use crate::web_url::{url_parsing, Url};

verus! {

/// A link as the repository writes it.
#[derive(Debug, PartialEq, Eq, Hash)]
pub enum GboxLink {
    Url(Url),
    Digest(String),
}

/// A link seen as plain text: a URL's serialization, or an identifier.
pub enum LinkView {
    Url(Seq<char>),
    Digest(Seq<char>),
}

impl View for GboxLink {
    type V = LinkView;

    open spec fn view(&self) -> LinkView {
        match self {
            GboxLink::Url(u) => LinkView::Url(u@),
            GboxLink::Digest(d) => LinkView::Digest(d@),
        }
    }
}

/// The text of a link: the URL's serialization, or the identifier.
pub open spec fn link_text(link: LinkView) -> Seq<char> {
    match link {
        LinkView::Url(u) => u,
        LinkView::Digest(d) => d,
    }
}

/// The identifier that stands for the text `id`: the lowercase hexadecimal of
/// bytes 4 to 11 of the MD5 digest of its UTF-8 bytes.
pub open spec fn digest_text(id: Seq<char>) -> Seq<char> {
    hex_lower(md5_digest(encode_utf8(id)).subrange(4, 12))
}

/// The identifier of a link: computed for a URL, kept for an identifier.
pub open spec fn link_digest(link: LinkView) -> Seq<char> {
    match link {
        LinkView::Url(u) => digest_text(u),
        LinkView::Digest(d) => d,
    }
}

/// The link that a repository text stands for, `None` where it stands for
/// none: a URL where the `url` crate parses it, else an identifier where it is
/// 16 bytes long.
pub open spec fn identifier_link(text: Seq<char>) -> Option<LinkView> {
    match url_parsing(text) {
        Some(u) => Some(LinkView::Url(u)),
        None => if encode_utf8(text).len() == 16 {
            Some(LinkView::Digest(text))
        } else {
            None
        },
    }
}

impl Clone for GboxLink {
    fn clone(&self) -> (res: Self)
        ensures
            res == *self,
    {
        match self {
            GboxLink::Url(u) => GboxLink::Url(u.clone()),
            GboxLink::Digest(d) => GboxLink::Digest(d.clone()),
        }
    }
}

impl GboxLink {
    /// A link to the URL that `url` parses to.
    pub fn new_url(url: &str) -> (res: Result<GboxLink, GboxError>)
        ensures
            match res {
                Ok(link) => url_parsing(url@) matches Some(u) && link@ == LinkView::Url(u),
                Err(e) => url_parsing(url@) is None && e is InvalidUrl,
            },
    {
        match Url::parse(url) {
            Ok(u) => Ok(GboxLink::Url(u)),
            Err(e) => Err(GboxError::InvalidUrl(e)),
        }
    }

    /// The identifier that stands for `id`.
    pub fn new_digest(id: &str) -> (res: GboxLink)
        ensures
            res@ == LinkView::Digest(digest_text(id@)),
            digest_text(id@).len() == 16,
            forall|i: int| 0 <= i < 16 ==> is_lower_hex_char(#[trigger] digest_text(id@)[i]),
    {
        let digest = md5(id.as_bytes());
        let mut middle: Vec<u8> = Vec::new();
        let mut i: usize = 4;
        while i < 12
            invariant
                4 <= i <= 12,
                digest@.len() == 16,
                middle@ == digest@.subrange(4, i as int),
            decreases 12 - i,
        {
            middle.push(digest[i]);
            proof {
                assert(digest@.subrange(4, i + 1) =~= digest@.subrange(4, i as int).push(digest@[i as int]));
            }
            i = i + 1;
        }
        proof {
            lemma_hex_lower_chars(middle@);
        }
        GboxLink::Digest(hex_encode(middle.as_slice()))
    }

    /// The URL of a URL link.
    pub fn as_url(&self) -> (res: Option<&Url>)
        ensures
            match self {
                GboxLink::Url(u) => res == Some(u),
                GboxLink::Digest(_) => res is None,
            },
    {
        match self {
            GboxLink::Url(u) => Some(u),
            GboxLink::Digest(_) => None,
        }
    }

    /// The URL of a URL link, by value.
    pub fn into_url(self) -> (res: Option<Url>)
        ensures
            match self {
                GboxLink::Url(u) => res == Some(u),
                GboxLink::Digest(_) => res is None,
            },
    {
        match self {
            GboxLink::Url(u) => Some(u),
            GboxLink::Digest(_) => None,
        }
    }

    /// The identifier link of this link.
    pub fn into_digest(self) -> (res: GboxLink)
        ensures
            res@ == LinkView::Digest(link_digest(self@)),
    {
        match self {
            GboxLink::Url(u) => GboxLink::new_digest(u.as_str()),
            GboxLink::Digest(d) => GboxLink::Digest(d),
        }
    }

    /// The identifier link of this link.
    pub fn to_digest(&self) -> (res: GboxLink)
        ensures
            res@ == LinkView::Digest(link_digest(self@)),
    {
        match self {
            GboxLink::Url(u) => GboxLink::new_digest(u.as_str()),
            GboxLink::Digest(d) => GboxLink::Digest(d.clone()),
        }
    }

    /// The text of this link.
    pub fn into_string(self) -> (res: String)
        ensures
            res@ == link_text(self@),
    {
        match self {
            GboxLink::Url(u) => u.into_string(),
            GboxLink::Digest(d) => d,
        }
    }

    /// The text of this link, as `Display`, `AsRef<str>` and `Deref` give it.
    pub fn as_str(&self) -> (res: &str)
        ensures
            res@ == link_text(self@),
    {
        match self {
            GboxLink::Url(u) => u.as_str(),
            GboxLink::Digest(d) => d.as_str(),
        }
    }

    /// The text of this link, as `to_string` gives it.
    pub fn to_string(&self) -> (res: String)
        ensures
            res@ == link_text(self@),
    {
        self.as_str().to_owned()
    }

    /// Whether this is an identifier link.
    pub fn is_digest(&self) -> (res: bool)
        ensures
            res == (self@ is Digest),
    {
        match self {
            GboxLink::Url(_) => false,
            GboxLink::Digest(_) => true,
        }
    }

    /// Whether this is a URL link.
    pub fn is_url(&self) -> (res: bool)
        ensures
            res == (self@ is Url),
    {
        match self {
            GboxLink::Url(_) => true,
            GboxLink::Digest(_) => false,
        }
    }

    /// The link that a repository text stands for: a URL where it parses as one,
    /// an identifier where it is 16 bytes long, an error otherwise.
    pub fn from_identifier(identifier: String) -> (res: Result<GboxLink, GboxError>)
        ensures
            match res {
                Ok(link) => identifier_link(identifier@) == Some(link@),
                Err(e) => identifier_link(identifier@) is None && e == GboxError::InvalidLink(identifier),
            },
    {
        match Url::parse(identifier.as_str()) {
            Ok(u) => Ok(GboxLink::Url(u)),
            Err(_) => {
                let n = identifier.as_str().as_bytes().len();
                if n == 16 {
                    Ok(GboxLink::Digest(identifier))
                } else {
                    Err(GboxError::InvalidLink(identifier))
                }
            },
        }
    }
}

/// A link that the repository may leave out or write in a form that stands
/// for no link.
#[derive(Debug, PartialEq, Eq, Hash)]
pub struct OptionalGboxLink(pub Option<GboxLink>);

impl Clone for OptionalGboxLink {
    fn clone(&self) -> (res: Self)
        ensures
            res == *self,
    {
        match &self.0 {
            Some(link) => OptionalGboxLink(Some(link.clone())),
            None => OptionalGboxLink(None),
        }
    }
}

impl OptionalGboxLink {
    /// A link to the URL that `url` parses to.
    pub fn new_url(url: &str) -> (res: Result<OptionalGboxLink, GboxError>)
        ensures
            match res {
                Ok(o) => url_parsing(url@) matches Some(u) && o.0 matches Some(link) && link@ == LinkView::Url(u),
                Err(e) => url_parsing(url@) is None && e is InvalidUrl,
            },
    {
        match GboxLink::new_url(url) {
            Ok(link) => Ok(OptionalGboxLink(Some(link))),
            Err(e) => Err(e),
        }
    }

    /// The identifier link that stands for `id`.
    pub fn new_id(id: &str) -> (res: OptionalGboxLink)
        ensures
            res.0 matches Some(link) && link@ == LinkView::Digest(digest_text(id@)),
    {
        OptionalGboxLink(Some(GboxLink::new_digest(id)))
    }

    /// The link, if any.
    pub fn as_option(&self) -> (res: &Option<GboxLink>)
        ensures
            res == &self.0,
    {
        &self.0
    }

    /// The link that a repository text stands for, or none where the text
    /// stands for no link.
    pub fn from_identifier(identifier: String) -> (res: OptionalGboxLink)
        ensures
            match res.0 {
                Some(link) => identifier_link(identifier@) == Some(link@),
                None => identifier_link(identifier@) is None,
            },
    {
        match GboxLink::from_identifier(identifier) {
            Ok(link) => OptionalGboxLink(Some(link)),
            Err(_) => OptionalGboxLink(None),
        }
    }
}

} // verus!
