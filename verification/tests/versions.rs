use isignkit::altstore::application::{Version, VersionAsset};
use isignkit::instant::DateTime;
use isignkit::sidestore::application::{self as side, DownloadAsset, ReleaseTrack};
use isignkit::web_url::Url;

fn url(text: &str) -> Url {
    Url::parse(text).unwrap()
}

fn at(secs: i64) -> DateTime {
    DateTime::from_timestamp(secs, 0).unwrap()
}

fn version(number: &str, secs: i64, download: &str) -> Version {
    Version {
        version: number.to_string(),
        build_version: None,
        marketing_version: None,
        date: at(secs),
        localized_description: None,
        download_url: url(download),
        size: 1,
        sha256: None,
        assets_urls: None,
        minos_version: None,
        maxos_version: None,
    }
}

#[test]
fn newest_of_many_is_latest_date() {
    let asset = VersionAsset::Multiple {
        versions: vec![
            version("1.0", 100, "https://a.example/1"),
            version("3.0", 300, "https://a.example/3"),
            version("2.0", 200, "https://a.example/2"),
        ],
    };
    assert_eq!(asset.date_for_newest().unwrap().timestamp(), 300);
    assert_eq!(asset.url_for_newest().unwrap().as_str(), "https://a.example/3");
    assert_eq!(asset.newest_version_str().unwrap(), "3.0");
}

#[test]
fn newest_among_equal_dates_is_last() {
    let asset = VersionAsset::Multiple {
        versions: vec![version("1.0", 100, "https://a.example/1"), version("1.1", 100, "https://a.example/2")],
    };
    assert_eq!(asset.newest_version_str().unwrap(), "1.1");
    assert_eq!(asset.url_for_newest().unwrap().as_str(), "https://a.example/2");
}

#[test]
fn no_versions_no_newest() {
    let asset = VersionAsset::Multiple { versions: vec![] };
    assert!(asset.date_for_newest().is_none());
    assert!(asset.url_for_newest().is_none());
    assert!(asset.newest_version_str().is_none());
}

#[test]
fn single_version_is_newest() {
    let asset = VersionAsset::Single {
        version: "2.5".to_string(),
        date: at(42),
        description: None,
        download_url: url("https://a.example/app.ipa"),
        size: 10,
    };
    assert_eq!(asset.date_for_newest().unwrap().timestamp(), 42);
    assert_eq!(asset.url_for_newest().unwrap().as_str(), "https://a.example/app.ipa");
    assert_eq!(asset.newest_version_str().unwrap(), "2.5");
}

fn side_version(number: &str, secs: i64) -> side::Version {
    side::Version {
        version: number.to_string(),
        build_version: None,
        date: at(secs),
        localized_description: None,
        download_url: url("https://s.example/app.ipa"),
        size: 5,
        sha256: None,
        minos_version: None,
        maxos_version: None,
    }
}

#[test]
fn sidestore_tracks_have_no_newest() {
    let asset = DownloadAsset::Tracks {
        tracks: vec![ReleaseTrack { track: "stable".to_string(), releases: vec![side_version("1.0", 1)] }],
    };
    assert!(asset.date_for_newest().is_none());
    assert!(asset.url_for_newest().is_none());
    assert!(asset.newest_version_str().is_none());
}

#[test]
fn sidestore_newest_of_many() {
    let asset = DownloadAsset::Multiple { versions: vec![side_version("0.9", 9), side_version("0.8", 8)] };
    assert_eq!(asset.date_for_newest().unwrap().timestamp(), 9);
    assert_eq!(asset.newest_version_str().unwrap(), "0.9");
}

#[test]
fn version_conversions_keep_fields() {
    let s = side::Version::from_altstore(version("4.0", 400, "https://a.example/4"));
    assert_eq!(s.version, "4.0");
    assert_eq!(s.date.timestamp(), 400);
    assert_eq!(s.download_url.as_str(), "https://a.example/4");
    let a = Version::from_sidestore(s);
    assert_eq!(a.version, "4.0");
    assert!(a.marketing_version.is_none());
    assert!(a.assets_urls.is_none());
}

#[test]
fn tracks_do_not_convert_to_altstore() {
    let tracks = DownloadAsset::Tracks { tracks: vec![] };
    assert!(VersionAsset::try_from_sidestore(tracks).is_err());
    let multiple = DownloadAsset::Multiple { versions: vec![side_version("1.2", 12)] };
    match VersionAsset::try_from_sidestore(multiple).unwrap() {
        VersionAsset::Multiple { versions } => {
            assert_eq!(versions.len(), 1);
            assert_eq!(versions[0].version, "1.2");
        }
        VersionAsset::Single { .. } => panic!("expected a list of versions"),
    }
}
