use isignkit::altstore::color::AltStoreColor;
use isignkit::error::AltstoreError;

#[test]
fn test_color() {
    assert!(AltStoreColor::from_str("F74703").is_ok());
    assert!(AltStoreColor::from_str("#F74703").is_ok());

    assert!(AltStoreColor::from_str("F7470").is_err());
    assert!(AltStoreColor::from_str("H74703").is_err());
    assert!(AltStoreColor::from_str("#H74703").is_err());
}

#[test]
fn color_keeps_digits_without_hash() {
    let color = AltStoreColor::from_str("#F74703").unwrap();
    assert_eq!(color.as_str(), "F74703");
    let color = AltStoreColor::from_str("a0b1c2").unwrap();
    assert_eq!(color.as_str(), "a0b1c2");
}

#[test]
fn color_error_names_the_text() {
    match AltStoreColor::from_str("#12345") {
        Err(AltstoreError::InvalidHexColor(text)) => assert_eq!(text, "12345"),
        _ => panic!("expected an invalid color"),
    }
    assert!(AltStoreColor::from_str("").is_err());
    assert!(AltStoreColor::from_str("##F74703").is_err());
    assert!(AltStoreColor::from_str("F747031").is_err());
}
