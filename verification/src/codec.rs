//! Byte encodings and digests: Base64 (standard alphabet, padded), lowercase
//! hexadecimal and MD5.
use base64::Engine;
use vstd::prelude::*;

verus! {

/// What the `base64` crate's standard engine encodes `bytes` as.
pub uninterp spec fn base64_encoding(bytes: Seq<u8>) -> Seq<char>;

/// What the `base64` crate's standard engine decodes `text` to, `None` where it refuses it.
pub uninterp spec fn base64_decoding(text: Seq<char>) -> Option<Seq<u8>>;

/// The MD5 digest of `bytes`, as the `md5` crate computes it.
pub uninterp spec fn md5_digest(bytes: Seq<u8>) -> Seq<u8>;

/// The lowercase hexadecimal digit for a value below 16.
pub open spec fn hex_digit(n: int) -> char {
    if n < 10 {
        (('0' as int) + n) as char
    } else {
        (('a' as int) + n - 10) as char
    }
}

/// Lowercase hexadecimal text of `bytes`: two digits per byte, high half first.
pub open spec fn hex_lower(bytes: Seq<u8>) -> Seq<char> {
    Seq::new(
        2 * bytes.len(),
        |i: int|
            if i % 2 == 0 {
                hex_digit(bytes[i / 2] as int / 16)
            } else {
                hex_digit(bytes[i / 2] as int % 16)
            },
    )
}

/// Whether `c` is a lowercase hexadecimal digit.
pub open spec fn is_lower_hex_char(c: char) -> bool {
    ('0' <= c && c <= '9') || ('a' <= c && c <= 'f')
}

/// Every character of `hex_lower(bytes)` is a lowercase hexadecimal digit.
pub proof fn lemma_hex_lower_chars(bytes: Seq<u8>)
    ensures
        hex_lower(bytes).len() == 2 * bytes.len(),
        forall|i: int| 0 <= i < hex_lower(bytes).len() ==> is_lower_hex_char(#[trigger] hex_lower(bytes)[i]),
{
    assert forall|i: int| 0 <= i < hex_lower(bytes).len() implies is_lower_hex_char(#[trigger] hex_lower(bytes)[i]) by {
        let b = bytes[i / 2] as int;
        assert(0 <= b / 16 < 16);
        assert(0 <= b % 16 < 16);
    }
}

/// `base64::engine::general_purpose::STANDARD.encode`: the padded standard
/// Base64 text of `bytes`, which that engine decodes back to `bytes`.
#[verifier::external_body]
pub(crate) fn base64_encode(bytes: &[u8]) -> (res: String)
    requires
        bytes@.len() <= usize::MAX / 4,
    ensures
        res@ == base64_encoding(bytes@),
        base64_decoding(res@) == Some(bytes@),
{
    base64::engine::general_purpose::STANDARD.encode(bytes)
}

/// `base64::engine::general_purpose::STANDARD.decode`: the bytes that `text`
/// encodes, or the crate's error where `text` is not padded standard Base64.
#[verifier::external_body]
pub(crate) fn base64_decode(text: &str) -> (res: Result<Vec<u8>, base64::DecodeError>)
    ensures
        match res {
            Ok(v) => base64_decoding(text@) == Some(v@),
            Err(_) => base64_decoding(text@) is None,
        },
{
    base64::engine::general_purpose::STANDARD.decode(text)
}

/// `md5::compute`: the 16 byte MD5 digest of `bytes`.
#[verifier::external_body]
pub(crate) fn md5(bytes: &[u8]) -> (res: Vec<u8>)
    ensures
        res@ == md5_digest(bytes@),
        res@.len() == 16,
{
    md5::compute(bytes).0.to_vec()
}

/// `hex::encode`: two lowercase hexadecimal digits per byte, high half first.
#[verifier::external_body]
pub(crate) fn hex_encode(bytes: &[u8]) -> (res: String)
    requires
        bytes@.len() <= usize::MAX / 4,
    ensures
        res@ == hex_lower(bytes@),
{
    hex::encode(bytes)
}

/// Lowercase hexadecimal text of the MD5 digest of `bytes` (32 characters).
pub fn md5_hex(bytes: &[u8]) -> (res: String)
    ensures
        res@ == hex_lower(md5_digest(bytes@)),
        res@.len() == 32,
{
    let digest = md5(bytes);
    hex_encode(digest.as_slice())
}

} // verus!
