//! The remote app configuration of GBox: requested by app type and version,
//! answered RSA-sealed with GBox's private key.
use vstd::prelude::*;
use crate::codec::{base64_decode, base64_decoding};
use crate::error::GboxError;
use crate::gbox::crypt_keys::CryptKeys;
use crate::json::pair_views;

verus! {

/// `openssl::rsa::Rsa`, an RSA key held by OpenSSL.
#[verifier::external_type_specification]
#[verifier::external_body]
#[verifier::reject_recursive_types(T)]
pub struct ExRsa<T>(openssl::rsa::Rsa<T>);

/// `openssl::pkey::Public`, the marker of public keys.
#[verifier::external_type_specification]
#[verifier::external_body]
pub struct ExPublic(openssl::pkey::Public);

/// Whether OpenSSL reads `der` as a DER-encoded RSA public key
/// (SubjectPublicKeyInfo).
pub uninterp spec fn rsa_der_key(der: Seq<u8>) -> bool;

/// The modulus size in bytes of the RSA public key that `der` holds.
pub uninterp spec fn rsa_der_size(der: Seq<u8>) -> u32;

/// What OpenSSL's `RSA_public_decrypt` with PKCS #1 padding opens `block` to
/// with the public key that `der` holds; `None` where it fails.
pub uninterp spec fn rsa_opening(der: Seq<u8>, block: Seq<u8>) -> Option<Seq<u8>>;

/// The members of the JSON object that `serde_json` reads from `bytes`, in the
/// order in which its `Map` holds them, each value as the compact JSON text
/// that `serde_json` writes for it; `None` where `bytes` are not the JSON text
/// of an object.
pub uninterp spec fn json_object_members(bytes: Seq<u8>) -> Option<Seq<(Seq<char>, Seq<char>)>>;

/// An RSA public key that OpenSSL holds, with the DER text it was read from.
/// Only `rsa_public_key_from_der` makes one.
struct RsaKey {
    key: openssl::rsa::Rsa<openssl::pkey::Public>,
    der: Ghost<Seq<u8>>,
}

impl RsaKey {
    /// The DER text that the key was read from.
    spec fn der(&self) -> Seq<u8> {
        self.der@
    }
}

/// `openssl::rsa::Rsa::<Public>::public_key_from_der`: the RSA public key that
/// a DER-encoded SubjectPublicKeyInfo holds, where OpenSSL reads one, kept with
/// the DER text it was read from.
#[verifier::external_body]
fn rsa_public_key_from_der(der: &[u8]) -> (res: Result<RsaKey, openssl::error::ErrorStack>)
    ensures
        res is Ok <==> rsa_der_key(der@),
        res matches Ok(k) ==> k.der() == der@,
{
    match openssl::rsa::Rsa::public_key_from_der(der) {
        Ok(key) => Ok(RsaKey { key, der: Ghost(der@) }),
        Err(e) => Err(e),
    }
}

/// `openssl::rsa::Rsa::size`: the modulus size in bytes of the key. OpenSSL
/// returns it as a non-negative C `int`, so it is at most `i32::MAX`.
#[verifier::external_body]
fn rsa_size(key: &RsaKey) -> (res: u32)
    ensures
        res == rsa_der_size(key.der()),
        res <= 0x7fff_ffff,
{
    key.key.size()
}

/// `openssl::rsa::Rsa::public_decrypt` with PKCS #1 padding, into a buffer of
/// the key's size: what `block` opens to, where OpenSSL opens it.
#[verifier::external_body]
fn rsa_public_decrypt(key: &RsaKey, block: &[u8]) -> (res: Result<Vec<u8>, openssl::error::ErrorStack>)
    requires
        block@.len() <= 0x7fff_ffff,
    ensures
        match res {
            Ok(v) => rsa_opening(key.der(), block@) == Some(v@),
            Err(_) => rsa_opening(key.der(), block@) is None,
        },
{
    let mut buf = vec![0u8; key.key.size() as usize];
    let len = key.key.public_decrypt(block, &mut buf, openssl::rsa::Padding::PKCS1)?;
    buf.truncate(len);
    Ok(buf)
}

/// `serde_json::from_slice` into a JSON object (`Map<String, Value>`), its
/// members taken out in order with each value written back as compact JSON
/// text (`Value`'s `Display`).
#[verifier::external_body]
fn parse_json_object(bytes: &[u8]) -> (res: Result<Vec<(String, String)>, serde_json::Error>)
    ensures
        match res {
            Ok(m) => json_object_members(bytes@) == Some(pair_views(m@)),
            Err(_) => json_object_members(bytes@) is None,
        },
{
    let map: serde_json::Map<String, serde_json::Value> = serde_json::from_slice(bytes)?;
    Ok(map.into_iter().map(|(k, v)| (k, v.to_string())).collect())
}

/// The bytes that the key held in `der` opens `bytes` to, cut into blocks of
/// `size` bytes (the last one maybe shorter), each block opened and the
/// results joined; `None` where a block does not open. Nothing is opened with
/// a size of 0.
pub open spec fn opened_blocks(der: Seq<u8>, bytes: Seq<u8>, size: nat) -> Option<Seq<u8>>
    decreases bytes.len(),
{
    if size == 0 || bytes.len() == 0 {
        Some(Seq::empty())
    } else {
        let n = if bytes.len() < size { bytes.len() } else { size };
        match rsa_opening(der, bytes.take(n as int)) {
            None => None,
            Some(first) => match opened_blocks(der, bytes.skip(n as int), size) {
                None => None,
                Some(rest) => Some(first + rest),
            },
        }
    }
}

/// The app type of a configuration request.
#[derive(Debug, Clone, PartialEq, Eq, Hash)]
pub enum GBoxAppType {
    Ios,
}

/// A configuration request: the app type and the GBox version.
#[derive(Debug, Clone, PartialEq, Eq, Hash)]
pub struct RemoteConfigRequest {
    pub app_type: GBoxAppType,
    pub version: String,
}

/// The answer to a configuration request.
#[derive(Debug, Clone)]
pub enum RemoteConfigResponse {
    Success { data: EncryptedConfig },
    Error { message: String },
}

/// A sealed configuration: RSA blocks, in Base64.
#[derive(Debug, Clone)]
pub struct EncryptedConfig {
    app_config: String,
}

impl EncryptedConfig {
    /// A sealed configuration as read from an answer.
    pub fn new(app_config: String) -> (res: EncryptedConfig)
        ensures
            res.app_config() == app_config@,
    {
        EncryptedConfig { app_config }
    }

    /// The Base64 text of the sealed configuration.
    pub closed spec fn app_config(&self) -> Seq<char> {
        self.app_config@
    }

    /// The sealed configuration's Base64 text.
    pub fn as_str(&self) -> (res: &str)
        ensures
            res@ == self.app_config(),
    {
        self.app_config.as_str()
    }

    /// Opens the configuration with the public key of `keys`: the Base64 payload
    /// is cut into blocks of the key's size, each block opened with the key and
    /// the results joined, and the joined bytes read as a JSON object, given as
    /// its members with each value in compact JSON text.
    ///
    /// An invalid payload or key text gives `InvalidBase64` (the payload is
    /// decoded first), a key that OpenSSL refuses or a block it cannot open
    /// gives `OpenSsl`, and joined bytes that are no JSON object give `Json`.
    pub fn decrypt(&self, keys: &CryptKeys) -> (res: Result<Vec<(String, String)>, GboxError>)
        ensures
            match base64_decoding(self.app_config()) {
                None => res matches Err(e) && e is InvalidBase64,
                Some(payload) => match base64_decoding(keys.config_pubkey@) {
                    None => res matches Err(e) && e is InvalidBase64,
                    Some(der) => if !rsa_der_key(der) {
                        res matches Err(e) && e is OpenSsl
                    } else {
                        match opened_blocks(der, payload, rsa_der_size(der) as nat) {
                            None => res matches Err(e) && e is OpenSsl,
                            Some(bytes) => match json_object_members(bytes) {
                                Some(members) => res matches Ok(m) && pair_views(m@) == members,
                                None => res matches Err(e) && e is Json,
                            },
                        }
                    },
                },
            },
    {
        let decoded = match base64_decode(self.app_config.as_str()) {
            Ok(bytes) => bytes,
            Err(e) => return Err(GboxError::InvalidBase64(e)),
        };
        let pubkey = match base64_decode(keys.config_pubkey.as_str()) {
            Ok(bytes) => bytes,
            Err(e) => return Err(GboxError::InvalidBase64(e)),
        };
        let key = match rsa_public_key_from_der(pubkey.as_slice()) {
            Ok(key) => key,
            Err(e) => return Err(GboxError::OpenSsl(e)),
        };
        let size = rsa_size(&key) as usize;
        let decrypted = match open_blocks(&key, &decoded, size) {
            Ok(bytes) => bytes,
            Err(e) => return Err(GboxError::OpenSsl(e)),
        };
        match parse_json_object(decrypted.as_slice()) {
            Ok(map) => Ok(map),
            Err(e) => Err(GboxError::Json(e)),
        }
    }
}

/// Opens each block of `bytes` of `size` bytes with `key`, in order, and joins
/// the results; stops at the first block that OpenSSL cannot open.
fn open_blocks(key: &RsaKey, bytes: &Vec<u8>, size: usize) -> (res: Result<Vec<u8>, openssl::error::ErrorStack>)
    requires
        size <= 0x7fff_ffff,
    ensures
        match res {
            Ok(v) => opened_blocks(key.der(), bytes@, size as nat) == Some(v@),
            Err(_) => opened_blocks(key.der(), bytes@, size as nat) is None,
        },
{
    let mut result: Vec<u8> = Vec::new();
    if size == 0 {
        return Ok(result);
    }
    let ghost der = key.der();
    let mut start: usize = 0;
    proof {
        assert(bytes@.skip(0) =~= bytes@);
        match opened_blocks(der, bytes@, size as nat) {
            None => {},
            Some(all) => {
                assert(result@ + all =~= all);
            },
        }
    }
    while start < bytes.len()
        invariant
            0 < size <= 0x7fff_ffff,
            start <= bytes@.len(),
            der == key.der(),
            opened_blocks(der, bytes@, size as nat) == match opened_blocks(der, bytes@.skip(start as int), size as nat) {
                None => None,
                Some(rest) => Some(result@ + rest),
            },
        decreases bytes@.len() - start,
    {
        let end = if bytes.len() - start < size { bytes.len() } else { start + size };
        let mut block: Vec<u8> = Vec::new();
        let mut i = start;
        while i < end
            invariant
                start <= i <= end,
                end <= bytes@.len(),
                end - start <= size,
                block@ == bytes@.subrange(start as int, i as int),
            decreases end - i,
        {
            block.push(bytes[i]);
            proof {
                assert(block@ =~= bytes@.subrange(start as int, i + 1));
            }
            i = i + 1;
        }
        let ghost tail = bytes@.skip(start as int);
        proof {
            let n = (end - start) as int;
            assert(block@ =~= tail.take(n));
            assert(tail.skip(n) =~= bytes@.skip(end as int));
        }
        let opened = match rsa_public_decrypt(key, block.as_slice()) {
            Ok(o) => o,
            Err(e) => return Err(e),
        };
        let ghost before = result@;
        let mut j: usize = 0;
        while j < opened.len()
            invariant
                j <= opened@.len(),
                result@ == before + opened@.subrange(0, j as int),
            decreases opened@.len() - j,
        {
            result.push(opened[j]);
            proof {
                assert(result@ =~= before + opened@.subrange(0, j + 1));
            }
            j = j + 1;
        }
        proof {
            assert(opened@.subrange(0, opened@.len() as int) =~= opened@);
            match opened_blocks(der, bytes@.skip(end as int), size as nat) {
                None => {},
                Some(rest) => {
                    assert(before + (opened@ + rest) =~= result@ + rest);
                },
            }
        }
        start = end;
    }
    proof {
        assert(bytes@.skip(start as int) =~= Seq::<u8>::empty());
        assert(result@ + Seq::<u8>::empty() =~= result@);
    }
    Ok(result)
}

} // verus!
