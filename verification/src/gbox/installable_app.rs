//! The install path of an application: `<Base64 of name/bundle/version>.plist`.
use vstd::prelude::*;
use vstd::utf8::{decode_utf8, valid_utf8};
use crate::codec::{base64_decode, base64_decoding};
use crate::error::InstallableAppError;
use crate::text::{chars_of, find_char, first_index, string_from_utf8, substring};

verus! {

/// An application named by an install path.
#[derive(Debug)]
pub struct InstallableApp {
    pub name: String,
    pub bundle_identifier: String,
    pub version: String,
}

/// The part of an install path before `.plist`, where the path ends in
/// `.plist` and that part is not empty.
pub open spec fn plist_stem(path: Seq<char>) -> Option<Seq<char>> {
    if path.len() > 6 && path.subrange(path.len() - 6, path.len() as int) == ".plist"@ {
        Some(path.subrange(0, path.len() - 6))
    } else {
        None
    }
}

/// How the decoded text splits at its first two `'/'`: the name, the bundle
/// identifier and the rest as the version; else the field that is missing.
pub open spec fn install_fields(text: Seq<char>) -> Result<(Seq<char>, Seq<char>, Seq<char>), Seq<char>> {
    match first_index(text, '/') {
        None => Err("bundleID"@),
        Some(i) => {
            let rest = text.skip(i + 1);
            match first_index(rest, '/') {
                None => Err("version"@),
                Some(j) => Ok((text.subrange(0, i), rest.subrange(0, j), rest.skip(j + 1))),
            }
        },
    }
}

/// The decoded text of an install path, where it has one: the stem decoded
/// from Base64, read as UTF-8.
pub open spec fn install_text(path: Seq<char>) -> Option<Seq<char>> {
    match plist_stem(path) {
        None => None,
        Some(stem) => match base64_decoding(stem) {
            None => None,
            Some(bytes) => if valid_utf8(bytes) {
                Some(decode_utf8(bytes))
            } else {
                None
            },
        },
    }
}

/// The stem of a path that ends in `.plist`, where it is not empty.
fn strip_plist(path: &str) -> (res: Option<String>)
    ensures
        match plist_stem(path@) {
            Some(stem) => res matches Some(s) && s@ == stem,
            None => res is None,
        },
{
    let cs = chars_of(path);
    let n = cs.len();
    if n <= 6 {
        return None;
    }
    let tail = substring(&cs, n - 6, n);
    let suffix = ".plist".to_owned();
    if tail == suffix {
        Some(substring(&cs, 0, n - 6))
    } else {
        None
    }
}

impl InstallableApp {
    /// Reads an install path: `<Base64 of name/bundle/version>.plist`, the
    /// version being everything after the second `'/'`.
    pub fn from_str(path: &str) -> (res: Result<InstallableApp, InstallableAppError>)
        ensures
            match install_text(path@) {
                None => res matches Err(e) && e is InvalidInputString,
                Some(text) => match install_fields(text) {
                    Ok(fields) => res matches Ok(app) && app.name@ == fields.0
                        && app.bundle_identifier@ == fields.1 && app.version@ == fields.2,
                    Err(field) => res matches Err(e) && e matches InstallableAppError::MissingField(f) && f@ == field,
                },
            },
    {
        let stem = match strip_plist(path) {
            Some(s) => s,
            None => return Err(InstallableAppError::InvalidInputString),
        };
        let decoded = match base64_decode(stem.as_str()) {
            Ok(bytes) => bytes,
            Err(_) => return Err(InstallableAppError::InvalidInputString),
        };
        let text = match string_from_utf8(decoded) {
            Some(t) => t,
            None => return Err(InstallableAppError::InvalidInputString),
        };
        let cs = chars_of(text.as_str());
        let ghost t = cs@;
        let first = match find_char(&cs, '/', 0) {
            Some(i) => i,
            None => {
                proof {
                    assert(t.skip(0) =~= t);
                }
                return Err(InstallableAppError::MissingField("bundleID"));
            },
        };
        proof {
            assert(t.skip(0) =~= t);
        }
        let second = match find_char(&cs, '/', first + 1) {
            Some(j) => j,
            None => {
                proof {
                    assert(first_index(t.skip(first + 1), '/') is None);
                    assert(install_fields(t) == Err::<(Seq<char>, Seq<char>, Seq<char>), Seq<char>>("version"@));
                }
                return Err(InstallableAppError::MissingField("version"));
            },
        };
        let name = substring(&cs, 0, first);
        let bundle_identifier = substring(&cs, first + 1, second);
        let version = substring(&cs, second + 1, cs.len());
        proof {
            let rest = t.skip(first + 1);
            let j = second - (first + 1);
            assert(rest.subrange(0, j) =~= t.subrange(first + 1, second as int));
            assert(rest.skip(j + 1) =~= t.subrange(second + 1, t.len() as int));
        }
        Ok(InstallableApp { name, bundle_identifier, version })
    }
}

} // verus!
