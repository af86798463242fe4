use isignkit::error::InstallableAppError;
use isignkit::gbox::installable_app::InstallableApp;

#[test]
fn parse_invalid() {
    let result = InstallableApp::from_str("install.plist");
    assert!(result.is_err());

    let result = InstallableApp::from_str(".plist");
    assert!(result.is_err());
}

#[test]
fn parse_valid() {
    let path = "aUFwcHMgVGVzdC9ydS5pYXBwcy5UZXN0LUFwcGxpY2F0aW9uLzEuMA==.plist";
    let result = InstallableApp::from_str(path);
    assert!(result.is_ok());
}

#[test]
fn parse_valid_fields() {
    let path = "aUFwcHMgVGVzdC9ydS5pYXBwcy5UZXN0LUFwcGxpY2F0aW9uLzEuMA==.plist";
    let app = InstallableApp::from_str(path).unwrap();
    assert_eq!(app.name, "iApps Test");
    assert_eq!(app.bundle_identifier, "ru.iapps.Test-Application");
    assert_eq!(app.version, "1.0");
}

#[test]
fn parse_keeps_slashes_in_version() {
    // "a/b/c/d" in Base64
    let app = InstallableApp::from_str("YS9iL2MvZA==.plist").unwrap();
    assert_eq!(app.name, "a");
    assert_eq!(app.bundle_identifier, "b");
    assert_eq!(app.version, "c/d");
}

#[test]
fn parse_missing_fields() {
    // "name" in Base64: no bundle identifier
    match InstallableApp::from_str("bmFtZQ==.plist") {
        Err(InstallableAppError::MissingField(field)) => assert_eq!(field, "bundleID"),
        _ => panic!("expected a missing bundle identifier"),
    }
    // "name/bundle" in Base64: no version
    match InstallableApp::from_str("bmFtZS9idW5kbGU=.plist") {
        Err(InstallableAppError::MissingField(field)) => assert_eq!(field, "version"),
        _ => panic!("expected a missing version"),
    }
}

#[test]
fn parse_rejects_bad_base64_and_suffix() {
    assert!(matches!(InstallableApp::from_str("!!!!.plist"), Err(InstallableAppError::InvalidInputString)));
    assert!(matches!(InstallableApp::from_str("YS9iL2M="), Err(InstallableAppError::InvalidInputString)));
    // "\xff\xfe" in Base64 is not UTF-8
    assert!(matches!(InstallableApp::from_str("//4=.plist"), Err(InstallableAppError::InvalidInputString)));
}
