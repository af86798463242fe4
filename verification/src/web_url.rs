//! Absolute URLs, held by their serialization as the `url` crate writes it.
use vstd::prelude::*;

verus! {

/// The serialization of the URL that the `url` crate parses `text` to,
/// `None` where it refuses `text`.
pub uninterp spec fn url_parsing(text: Seq<char>) -> Option<Seq<char>>;

/// An absolute URL. It holds the serialization that the `url` crate gave it.
#[derive(Debug, PartialEq, Eq, Hash)]
pub struct Url {
    serialization: String,
}

impl View for Url {
    type V = Seq<char>;

    closed spec fn view(&self) -> Seq<char> {
        self.serialization@
    }
}

/// `url::Url::parse` followed by `url::Url::as_str`. A URL without a base has a
/// scheme, so an accepted text holds a `':'`.
#[verifier::external_body]
fn parse_with_url_crate(text: &str) -> (res: Result<String, url::ParseError>)
    ensures
        match res {
            Ok(s) => url_parsing(text@) == Some(s@) && text@.contains(':'),
            Err(_) => url_parsing(text@) is None,
        },
{
    url::Url::parse(text).map(|u| String::from(u))
}

impl Clone for Url {
    fn clone(&self) -> (res: Self)
        ensures
            res == *self,
    {
        Url { serialization: self.serialization.clone() }
    }
}

impl Url {
    /// Parses an absolute URL.
    pub fn parse(text: &str) -> (res: Result<Url, url::ParseError>)
        ensures
            match res {
                Ok(u) => url_parsing(text@) == Some(u@),
                Err(_) => url_parsing(text@) is None,
            },
            res is Ok ==> text@.contains(':'),
    {
        match parse_with_url_crate(text) {
            Ok(serialization) => Ok(Url { serialization }),
            Err(e) => Err(e),
        }
    }

    /// `https://example.com/`, the URL that `"https://example.com"` parses to.
    pub fn example() -> (res: Url)
        ensures
            res@ == "https://example.com/"@,
    {
        Url { serialization: "https://example.com/".to_owned() }
    }

    /// The serialization of this URL.
    pub fn as_str(&self) -> (res: &str)
        ensures
            res@ == self@,
    {
        self.serialization.as_str()
    }

    /// The serialization of this URL, by value.
    pub fn into_string(self) -> (res: String)
        ensures
            res@ == self@,
    {
        self.serialization
    }
}

} // verus!
