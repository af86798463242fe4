use isignkit::error::GboxError;
use isignkit::gbox::config::EncryptedConfig;
use isignkit::gbox::crypt_keys::CryptKeys;

/// A 1024-bit RSA public key (SubjectPublicKeyInfo, DER) in Base64.
const PUBLIC_KEY: &str = "MIGfMA0GCSqGSIb3DQEBAQUAA4GNADCBiQKBgQC3dF3BdVXg/9cUSIBjUwlJs1qB7uxr2bh9tg2SiTgVfZXhyTzjcNwxSYcu0V4k+AX5h5Z3wHUk6x1GmlO6lAVN/iaxPvqL7bbHdigGrxSLSApsFAViMmNKktbhRIeMWemC8Q+Jp0UN+e+wm6zle/fVun9ofCnM9jQaXKySYkbsEwIDAQAB";

/// Two blocks sealed with the matching private key (PKCS #1 padding), whose
/// openings joined read `{"name":"GBox","features":{"unlock":true,"version":"5.6.6"}}`.
const SEALED_CONFIG: &str = "PiL5GJagFzcOk/f+U91ak6Oqbp+/dhXwDEIZeOiaBdO1S0xu0L8b55kSxw8yZUAx67qzkq0StqOEc1MMFdDOELe8u8bcxXX9g4DSz6NzVJ3DQhIlatEUZ6kx8NTLu0NJjCpa/C0q2R2JvrKM65a7+zzxCIBKuAGKIEnYcUwc/5x71Unw7UJ7qhSBUwevNqBuPoz3ET6S3zKV2VKznhvNZjTWSjfRWnBFTj4kJH0Fw+30RjabyEIg19B0N3Lje+ph1EHNP/HnGdol3TLCao9tgk87TEMDfWKd8znEcp/Ph0KvTlrzSFWsr3s/9hYHb+aavm543//f9wOgKQcuOlKS5Q==";

/// One block sealed with the matching private key that opens to `not json`.
const SEALED_TEXT: &str = "DTzr9r7rrpOIx0CoaN3PU4jShiVkRPea1cgGW7mn0TFbUwCwHVnmfS9UrNJx+70j8Wv2Tx+YWwABMPK/ysNsSqn/HspoIqONLVZvYEHzVsGSE+/ACSyiPZ6JmUOndufBHOS+KH5TnVJ6w9NZWR8HRGJxWOBYSikGfH+u+gR7b8g=";

fn keys() -> CryptKeys {
    CryptKeys {
        gbox_version: "1".to_string(),
        primary: String::new(),
        kvp: String::new(),
        config_pubkey: PUBLIC_KEY.to_string(),
    }
}

#[test]
fn config_opens_block_by_block() {
    let config = EncryptedConfig::new(SEALED_CONFIG.to_string());
    let members = config.decrypt(&keys()).unwrap();
    let value_of = |key: &str| members.iter().find(|(k, _)| k == key).map(|(_, v)| v.clone());
    assert_eq!(members.len(), 2);
    assert_eq!(value_of("name"), Some("\"GBox\"".to_string()));
    let features: serde_json::Value = serde_json::from_str(&value_of("features").unwrap()).unwrap();
    assert_eq!(features["version"], serde_json::Value::String("5.6.6".to_string()));
    assert_eq!(features["unlock"], serde_json::Value::Bool(true));
}

#[test]
fn config_that_is_no_object() {
    let config = EncryptedConfig::new(SEALED_TEXT.to_string());
    assert!(matches!(config.decrypt(&keys()), Err(GboxError::Json(_))));
}

#[test]
fn config_with_a_broken_block() {
    // the block with one of its bytes changed does not open
    let mut bytes = SEALED_TEXT.to_string();
    bytes.replace_range(1..2, "A");
    let config = EncryptedConfig::new(bytes);
    assert!(matches!(config.decrypt(&keys()), Err(GboxError::OpenSsl(_))));
}
