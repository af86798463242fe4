use vstd::prelude::*;

verus! {

/// The `base64` crate's decoding error, carried as it is.
#[verifier::external_type_specification]
#[verifier::external_body]
pub struct ExDecodeError(base64::DecodeError);

/// The `url` crate's parsing error, carried as it is.
#[verifier::external_type_specification]
#[verifier::external_body]
pub struct ExUrlParseError(url::ParseError);

/// The `openssl` crate's error stack, carried as it is.
#[verifier::external_type_specification]
#[verifier::external_body]
pub struct ExErrorStack(openssl::error::ErrorStack);

/// The `serde_json` crate's error, carried as it is.
#[verifier::external_type_specification]
#[verifier::external_body]
pub struct ExJsonError(serde_json::Error);

/// Errors of the GBox repository format.
#[derive(Debug)]
#[non_exhaustive]
pub enum GboxError {
    Json(serde_json::Error),
    InvalidBase64(base64::DecodeError),
    Validation(String),
    OpenSsl(openssl::error::ErrorStack),
    InvalidUrl(url::ParseError),
    /// Decryption of an RNCryptor payload failed; the message of the cipher.
    DecryptionFailed(String),
    /// Encryption of an RNCryptor payload failed; the message of the cipher.
    EncryptionFailed(String),
    InvalidDateTimeFormat { got: String, expected: String },
    /// A links-map value that is neither a URL nor a 16 character identifier.
    InvalidLink(String),
}

/// Errors of the install path of an application.
#[derive(Debug, Clone, Copy)]
#[non_exhaustive]
pub enum InstallableAppError {
    InvalidInputString,
    /// The name of the missing field.
    MissingField(&'static str),
}

/// Errors of the AltStore format.
#[derive(Debug, Clone)]
#[non_exhaustive]
pub enum AltstoreError {
    InvalidHexColor(String),
}

/// Errors of a conversion between repository formats.
#[derive(Debug, Clone, Copy, PartialEq, Eq, Structural)]
#[non_exhaustive]
pub enum ConversionError {
    UnsupportedItemType,
    InvalidOrMissingUrl,
    MissingVersionAsset,
}

} // verus!
