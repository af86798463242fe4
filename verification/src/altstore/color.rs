//! Tint colors of AltStore sources: six hexadecimal digits.
use vstd::prelude::*;
use crate::error::AltstoreError;
use crate::text::{chars_of, string_of};

verus! {

/// A tint color: the hexadecimal digits, without `'#'`.
#[derive(Debug, Clone)]
pub struct AltStoreColor(String);

/// Whether `c` is an ASCII hexadecimal digit, either case.
pub open spec fn is_hex_char(c: char) -> bool {
    ('0' <= c && c <= '9') || ('a' <= c && c <= 'f') || ('A' <= c && c <= 'F')
}

/// The text of a color without one leading `'#'`.
pub open spec fn without_hash(text: Seq<char>) -> Seq<char> {
    if text.len() > 0 && text[0] == '#' {
        text.skip(1)
    } else {
        text
    }
}

/// Whether a color text (without `'#'`) is six hexadecimal digits.
pub open spec fn is_hex_color(text: Seq<char>) -> bool {
    text.len() == 6 && forall|i: int| 0 <= i < 6 ==> is_hex_char(#[trigger] text[i])
}

impl View for AltStoreColor {
    type V = Seq<char>;

    closed spec fn view(&self) -> Seq<char> {
        self.0@
    }
}

impl AltStoreColor {
    /// Reads a color: six hexadecimal digits, optionally after one `'#'`. The
    /// color keeps the digits; the error holds the text without `'#'`.
    pub fn from_str(hex_string: &str) -> (res: Result<AltStoreColor, AltstoreError>)
        ensures
            match res {
                Ok(color) => is_hex_color(without_hash(hex_string@)) && color@ == without_hash(hex_string@),
                Err(AltstoreError::InvalidHexColor(text)) => !is_hex_color(without_hash(hex_string@))
                    && text@ == without_hash(hex_string@),
            },
    {
        let all = chars_of(hex_string);
        let mut cs: Vec<char> = Vec::new();
        let mut i: usize = if all.len() > 0 && all[0] == '#' { 1 } else { 0 };
        let start = i;
        while i < all.len()
            invariant
                start <= i <= all@.len(),
                start <= 1,
                cs@ == all@.subrange(start as int, i as int),
            decreases all@.len() - i,
        {
            cs.push(all[i]);
            proof {
                assert(all@.subrange(start as int, i + 1) =~= all@.subrange(start as int, i as int).push(all@[i as int]));
            }
            i = i + 1;
        }
        proof {
            assert(cs@ =~= without_hash(hex_string@));
        }
        let text = string_of(cs.as_slice());
        if cs.len() != 6 {
            return Err(AltstoreError::InvalidHexColor(text));
        }
        let mut j: usize = 0;
        while j < 6
            invariant
                j <= 6,
                cs@.len() == 6,
                cs@ == without_hash(hex_string@),
                text@ == cs@,
                forall|k: int| 0 <= k < j ==> is_hex_char(#[trigger] cs@[k]),
            decreases 6 - j,
        {
            let c = cs[j];
            if !(('0' <= c && c <= '9') || ('a' <= c && c <= 'f') || ('A' <= c && c <= 'F')) {
                proof {
                    assert(!is_hex_char(cs@[j as int]));
                }
                return Err(AltstoreError::InvalidHexColor(text));
            }
            j = j + 1;
        }
        Ok(AltStoreColor(text))
    }

    /// A color as a source holds it, taken as it is.
    pub fn from_serialized(text: String) -> (res: AltStoreColor)
        ensures
            res@ == text@,
    {
        AltStoreColor(text)
    }

    /// The color text.
    pub fn as_str(&self) -> (res: &str)
        ensures
            res@ == self@,
    {
        self.0.as_str()
    }
}

} // verus!
