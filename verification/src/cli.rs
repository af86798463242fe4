//! What the command line tool decides: the format of a source, the conversion
//! between formats, and the keys for a GBox version.
use vstd::prelude::*;
use crate::altstore;
use crate::gbox;
use crate::gbox::crypt_keys::{is_known_keys, serves, version_at_least, version_digits, CryptKeys, CryptKeysStorage};
use crate::gbox::links_map::{EncryptedLinksMap, LinkMapResponse};
use crate::gbox::GboxRepo;
use crate::pairs::{filter_related, lemma_filter_related_len};
use crate::sidestore;
use crate::web_url::{url_parsing, Url};

verus! {

/// A source format.
#[derive(Debug, Clone, Copy, PartialEq, Eq, Structural)]
pub enum Format {
    Altstore,
    Sidestore,
    Gbox,
}

impl Format {
    /// The user agent with which a source of this format is fetched.
    pub fn useragent(&self) -> (res: &'static str)
        ensures
            res@ == (match *self {
                Format::Altstore => "AltStore/1.0"@,
                Format::Sidestore => "SideStore/1.0"@,
                Format::Gbox => "GBox/1.0"@,
            }),
    {
        match self {
            Format::Altstore => "AltStore/1.0",
            Format::Sidestore => "SideStore/1.0",
            Format::Gbox => "GBox/1.0",
        }
    }
}

/// A source of any format.
#[derive(Debug)]
pub enum AnyRepository {
    Altstore(altstore::Repository),
    Sidestore(sidestore::Repository),
    Gbox(GboxRepo),
}

/// `res` is the source `src` converted to `format`: kept where it is in that
/// format already, else made from it.
pub open spec fn converted(src: AnyRepository, format: Format, res: AnyRepository) -> bool {
    match (src, format) {
        (AnyRepository::Altstore(a), Format::Altstore) => res == src,
        (AnyRepository::Altstore(a), Format::Sidestore) => res matches AnyRepository::Sidestore(s)
            && sidestore::repo_from_altstore(a, s),
        (AnyRepository::Altstore(a), Format::Gbox) => res matches AnyRepository::Gbox(GboxRepo::Plain(g))
            && gbox::repo_from_altstore(a, g),
        (AnyRepository::Sidestore(s), Format::Altstore) => res matches AnyRepository::Altstore(a)
            && altstore::repo_from_sidestore(s, a),
        (AnyRepository::Sidestore(s), Format::Sidestore) => res == src,
        (AnyRepository::Sidestore(s), Format::Gbox) => res matches AnyRepository::Gbox(GboxRepo::Plain(g))
            && gbox::repo_from_sidestore(s, g),
        (AnyRepository::Gbox(g), Format::Altstore) => res matches AnyRepository::Altstore(a)
            && altstore::repo_from_gbox(g, a),
        (AnyRepository::Gbox(g), Format::Sidestore) => res matches AnyRepository::Sidestore(s)
            && sidestore::repo_from_gbox(g, s),
        (AnyRepository::Gbox(g), Format::Gbox) => res == src,
    }
}

impl AnyRepository {
    /// The format of the source.
    pub open spec fn format(self) -> Format {
        match self {
            AnyRepository::Altstore(_) => Format::Altstore,
            AnyRepository::Sidestore(_) => Format::Sidestore,
            AnyRepository::Gbox(_) => Format::Gbox,
        }
    }

    /// The number of apps in the source; a sealed GBox repository counts none.
    pub open spec fn app_count(self) -> nat {
        match self {
            AnyRepository::Altstore(r) => r.app_list().len(),
            AnyRepository::Sidestore(r) => r.app_list().len(),
            AnyRepository::Gbox(GboxRepo::Plain(r)) => r.applications@.len(),
            AnyRepository::Gbox(GboxRepo::Encrypted(_)) => 0,
        }
    }

    /// The source converted to `format`.
    pub fn convert(self, format: Format) -> (res: AnyRepository)
        ensures
            converted(self, format, res),
    {
        match (self, format) {
            (AnyRepository::Altstore(repo), Format::Altstore) => AnyRepository::Altstore(repo),
            (AnyRepository::Altstore(repo), Format::Sidestore) => AnyRepository::Sidestore(sidestore::Repository::from_altstore(repo)),
            (AnyRepository::Altstore(repo), Format::Gbox) => AnyRepository::Gbox(GboxRepo::from_altstore(repo)),
            (AnyRepository::Sidestore(repo), Format::Altstore) => AnyRepository::Altstore(altstore::Repository::from_sidestore(repo)),
            (AnyRepository::Sidestore(repo), Format::Sidestore) => AnyRepository::Sidestore(repo),
            (AnyRepository::Sidestore(repo), Format::Gbox) => AnyRepository::Gbox(GboxRepo::from_sidestore(repo)),
            (AnyRepository::Gbox(repo), Format::Altstore) => AnyRepository::Altstore(altstore::Repository::from_gbox(repo)),
            (AnyRepository::Gbox(repo), Format::Sidestore) => AnyRepository::Sidestore(sidestore::Repository::from_gbox(repo)),
            (AnyRepository::Gbox(repo), Format::Gbox) => AnyRepository::Gbox(repo),
        }
    }

    /// The number of apps in the source.
    pub fn apps_count(&self) -> (res: usize)
        ensures
            res == self.app_count(),
    {
        match self {
            AnyRepository::Altstore(repo) => match &repo.apps {
                Some(apps) => apps.len(),
                None => 0,
            },
            AnyRepository::Sidestore(repo) => match &repo.apps {
                Some(apps) => apps.len(),
                None => 0,
            },
            AnyRepository::Gbox(GboxRepo::Plain(repo)) => repo.applications.len(),
            AnyRepository::Gbox(GboxRepo::Encrypted(_)) => 0,
        }
    }
}

/// Converting a source to its own format gives it back unchanged.
pub proof fn law_convert_to_own_format(src: AnyRepository, res: AnyRepository)
    requires
        converted(src, src.format(), res),
    ensures
        res == src,
{
}

/// A conversion never adds apps: the converted source has at most as many apps
/// as the source it was made from, and exactly as many from AltStore to SideStore.
pub proof fn law_convert_never_adds_apps(src: AnyRepository, format: Format, res: AnyRepository)
    requires
        converted(src, format, res),
    ensures
        res.app_count() <= src.app_count(),
        src is Altstore && format == Format::Sidestore ==> res.app_count() == src.app_count(),
{
    match (src, format) {
        (AnyRepository::Altstore(a), Format::Gbox) => {
            let g = res->Gbox_0->Plain_0;
            lemma_filter_related_len(a.app_list(), g.applications@, gbox::altstore_converts(), gbox::self_signed_from_altstore());
        },
        (AnyRepository::Sidestore(s), Format::Altstore) => {
            let a = res->Altstore_0;
            if let Some(v) = s.apps {
                lemma_filter_related_len(v@, a.app_list(), altstore::sidestore_converts(), altstore::app_from_sidestore_app());
            }
        },
        (AnyRepository::Sidestore(s), Format::Gbox) => {
            let g = res->Gbox_0->Plain_0;
            lemma_filter_related_len(s.app_list(), g.applications@, gbox::sidestore_converts(), gbox::self_signed_from_sidestore());
        },
        (AnyRepository::Gbox(g), Format::Altstore) => {
            let a = res->Altstore_0;
            if let GboxRepo::Plain(r) = g {
                lemma_filter_related_len(r.applications@, a.app_list(), altstore::gbox_converts(), altstore::app_from_gbox_item());
            }
        },
        (AnyRepository::Gbox(g), Format::Sidestore) => {
            let s = res->Sidestore_0;
            if let GboxRepo::Plain(r) = g {
                lemma_filter_related_len(r.applications@, s.app_list(), sidestore::gbox_converts(), sidestore::app_from_gbox_item());
            }
        },
        _ => {},
    }
}

/// The options that all GBox commands share.
#[derive(Debug, Clone)]
pub struct GlobalOptions {
    /// Where the output goes: a file path, or `-` for the standard output.
    pub output: String,
    /// The GBox version whose keys are used.
    pub gbox_version: String,
    /// The device identifier sent with remote requests.
    pub udid: Option<String>,
}

impl GlobalOptions {
    /// The keys for the chosen GBox version: the library's keys where they
    /// serve it (version 1 or later), `None` otherwise.
    pub fn suitable_keys(&self) -> (res: Option<CryptKeys>)
        ensures
            match res {
                Some(k) => is_known_keys(k) && serves(k, version_digits(self.gbox_version@)),
                None => version_at_least(version_digits(self.gbox_version@), "1"@) != Some(true),
            },
    {
        let storage = CryptKeysStorage::default();
        match storage.keys_for_version(self.gbox_version.as_str()) {
            Some(k) => Some(k.clone()),
            None => None,
        }
    }
}

} // verus!

verus! {

/// Where an input is read from.
#[derive(Debug)]
pub enum InputFile {
    /// The standard input, written `-`.
    Stdin,
    /// A local file, by its path.
    Local(String),
    /// A remote file, fetched from its URL.
    Remote(Url),
}

impl Clone for InputFile {
    fn clone(&self) -> (res: Self)
        ensures
            res == *self,
    {
        match self {
            InputFile::Stdin => InputFile::Stdin,
            InputFile::Local(p) => InputFile::Local(p.clone()),
            InputFile::Remote(u) => InputFile::Remote(u.clone()),
        }
    }
}

impl InputFile {
    /// Reads an input argument: a URL where the `url` crate parses it, else
    /// the standard input for `-`, else a local path.
    pub fn parse(text: &str) -> (res: InputFile)
        ensures
            match url_parsing(text@) {
                Some(u) => res matches InputFile::Remote(url) && url@ == u,
                None => if text@ == "-"@ {
                    res is Stdin
                } else {
                    res matches InputFile::Local(p) && p@ == text@
                },
            },
    {
        match Url::parse(text) {
            Ok(u) => InputFile::Remote(u),
            Err(_) => {
                let dash = "-".to_owned();
                let owned = text.to_owned();
                proof {
                    reveal_strlit("-");
                }
                if owned == dash {
                    InputFile::Stdin
                } else {
                    InputFile::Local(owned)
                }
            },
        }
    }

    /// Whether the input is fetched from a URL.
    pub fn is_remote(&self) -> (res: bool)
        ensures
            res == (self is Remote),
    {
        match self {
            InputFile::Remote(_) => true,
            _ => false,
        }
    }

    /// The path or URL of the input; none for the standard input.
    pub fn as_str(&self) -> (res: Option<&str>)
        ensures
            match *self {
                InputFile::Stdin => res is None,
                InputFile::Local(p) => res matches Some(s) && s@ == p@,
                InputFile::Remote(u) => res matches Some(s) && s@ == u@,
            },
    {
        match self {
            InputFile::Stdin => None,
            InputFile::Local(p) => Some(p.as_str()),
            InputFile::Remote(u) => Some(u.as_str()),
        }
    }
}

/// How the links map that restores the links of a decrypted repository is had.
#[derive(Debug)]
pub enum LinksMapPlan {
    /// No links map is used; the links stay as they are.
    Skip,
    /// The links map is read as it is stored, from a file or the standard input.
    Read(InputFile),
    /// The links map is fetched from its server with a request for the device
    /// `udid`, unlocked with `code` and sealed for the repository at `repo_url`.
    Fetch { map: Url, udid: String, code: String, repo_url: String },
}

/// The plan for the links map of a decrypted repository: the links map given,
/// else the unlock server that the repository names; none where there is
/// neither, or where the repository has no unlock hash; for a remote map, a
/// fetch where the device, the code and the repository URL (given, else that
/// of a remote repository) are known, none otherwise.
pub open spec fn links_map_plan(
    links_map: Option<InputFile>,
    unlock_server: Option<Url>,
    has_unlock_hash: bool,
    udid: Option<String>,
    code: Option<String>,
    repo_url: Option<String>,
    repo_json: InputFile,
) -> Option<(InputFile, Option<(String, String, Seq<char>)>)> {
    let source = match links_map {
        Some(f) => Some(f),
        None => match unlock_server {
            Some(u) => Some(InputFile::Remote(u)),
            None => None,
        },
    };
    let url: Option<Seq<char>> = match repo_url {
        Some(r) => Some(r@),
        None => match repo_json {
            InputFile::Remote(u) => Some(u@),
            _ => None,
        },
    };
    match source {
        None => None,
        Some(f) => if !has_unlock_hash {
            None
        } else {
            match f {
                InputFile::Remote(_) => match (udid, code, url) {
                    (Some(d), Some(c), Some(r)) => Some((f, Some((d, c, r)))),
                    _ => None,
                },
                _ => Some((f, None)),
            }
        },
    }
}

/// Decides how the links map of a decrypted repository is had.
pub fn plan_links_map(
    links_map: Option<InputFile>,
    unlock_server: Option<Url>,
    has_unlock_hash: bool,
    udid: Option<String>,
    code: Option<String>,
    repo_url: Option<String>,
    repo_json: &InputFile,
) -> (res: LinksMapPlan)
    ensures
        match links_map_plan(links_map, unlock_server, has_unlock_hash, udid, code, repo_url, *repo_json) {
            None => res is Skip,
            Some((f, None)) => res == LinksMapPlan::Read(f),
            Some((f, Some((d, c, r)))) => res matches LinksMapPlan::Fetch { map, udid, code, repo_url }
                && f == InputFile::Remote(map) && udid == d && code == c && repo_url@ == r,
        },
{
    let source = match links_map {
        Some(f) => f,
        None => match unlock_server {
            Some(u) => InputFile::Remote(u),
            None => return LinksMapPlan::Skip,
        },
    };
    if !has_unlock_hash {
        return LinksMapPlan::Skip;
    }
    match source {
        InputFile::Remote(map) => {
            let url = match repo_url {
                Some(r) => Some(r),
                None => match repo_json {
                    InputFile::Remote(u) => Some(u.as_str().to_owned()),
                    _ => None,
                },
            };
            match (udid, code, url) {
                (Some(udid), Some(code), Some(repo_url)) => LinksMapPlan::Fetch { map, udid, code, repo_url },
                _ => LinksMapPlan::Skip,
            }
        },
        f => LinksMapPlan::Read(f),
    }
}

/// A links map that is given comes first: where the repository has an unlock
/// hash, a given map that is not remote is read as it is, whatever unlock
/// server the repository names; a given remote map is fetched from its own URL
/// where the device, the code and the repository URL are known; the unlock
/// server is used only where no map is given; and without an unlock hash no
/// map is used.
pub proof fn law_given_links_map_first(
    f: InputFile,
    server: Option<Url>,
    udid: Option<String>,
    code: Option<String>,
    repo_url: Option<String>,
    repo_json: InputFile,
)
    ensures
        !(f is Remote) ==> links_map_plan(Some(f), server, true, udid, code, repo_url, repo_json) == Some((f, None::<(String, String, Seq<char>)>)),
        f matches InputFile::Remote(m) ==> match links_map_plan(Some(f), server, true, udid, code, repo_url, repo_json) {
            Some((g, Some((d, c, r)))) => g == f && udid == Some(d) && code == Some(c) && r == (match repo_url {
                Some(x) => x@,
                None => repo_json->Remote_0@,
            }) && (repo_url is Some || repo_json is Remote),
            Some((_, None)) => false,
            None => udid is None || code is None || (repo_url is None && !(repo_json is Remote)),
        },
        server matches Some(u) ==> match links_map_plan(None, server, true, udid, code, repo_url, repo_json) {
            Some((g, _)) => g == InputFile::Remote(u),
            None => true,
        },
        server matches Some(u) ==> links_map_plan(None, server, true, udid, code, repo_url, repo_json)
            == links_map_plan(Some(InputFile::Remote(u)), None, true, udid, code, repo_url, repo_json),
        links_map_plan(None, None, true, udid, code, repo_url, repo_json) is None,
        links_map_plan(Some(f), server, false, udid, code, repo_url, repo_json) is None,
{
}

/// Whether a links map belongs to a repository: its hash is the repository's
/// unlock hash.
pub fn links_map_matches(map: &EncryptedLinksMap, unlock_hash: &str) -> (res: bool)
    ensures
        res == (map.mapping_hash@ == unlock_hash@),
{
    let hash = unlock_hash.to_owned();
    map.mapping_hash == hash
}

/// What happens to a decrypted repository once its links map has come.
#[derive(Debug)]
pub enum LinksMapOutcome {
    /// The server refused the map: the decryption fails with its message.
    Fail { message: String },
    /// The map is not used: the repository has no unlock hash, or the map's
    /// hash differs from it. The links stay as they are.
    Keep,
    /// The map belongs to the repository: it is opened and the repository's
    /// links are restored from it.
    Open { map: EncryptedLinksMap },
}

/// Decides what comes of the links map `answer` (the server's answer, or a map
/// read from a file as a success) for a repository with the unlock hash
/// `unlock_hash`: a refusal fails with its message; a map is opened only
/// where the repository has an unlock hash and the map's hash equals it.
pub fn links_map_outcome(answer: LinkMapResponse, unlock_hash: &Option<String>) -> (res: LinksMapOutcome)
    ensures
        match answer {
            LinkMapResponse::Error { error } => res == LinksMapOutcome::Fail { message: error },
            LinkMapResponse::Success { map } => match unlock_hash {
                Some(h) => if map.mapping_hash@ == h@ {
                    res == LinksMapOutcome::Open { map }
                } else {
                    res is Keep
                },
                None => res is Keep,
            },
        },
{
    let map = match answer {
        LinkMapResponse::Error { error } => return LinksMapOutcome::Fail { message: error },
        LinkMapResponse::Success { map } => map,
    };
    match unlock_hash {
        Some(h) => if links_map_matches(&map, h.as_str()) {
            LinksMapOutcome::Open { map }
        } else {
            LinksMapOutcome::Keep
        },
        None => LinksMapOutcome::Keep,
    }
}

/// Decides how a links map that is asked for is had: read where it is stored
/// locally; fetched where it is remote and the device, the code and the
/// repository URL are known; `None` where it is remote and one of them is not.
pub fn plan_map_reading(
    links_map: InputFile,
    udid: Option<String>,
    code: Option<String>,
    repo_url: Option<String>,
) -> (res: Option<LinksMapPlan>)
    ensures
        match links_map {
            InputFile::Remote(m) => match (udid, code, repo_url) {
                (Some(d), Some(c), Some(r)) => res == Some(LinksMapPlan::Fetch { map: m, udid: d, code: c, repo_url: r }),
                _ => res is None,
            },
            f => res == Some(LinksMapPlan::Read(f)),
        },
{
    match links_map {
        InputFile::Remote(map) => match (udid, code, repo_url) {
            (Some(udid), Some(code), Some(repo_url)) => Some(LinksMapPlan::Fetch { map, udid, code, repo_url }),
            _ => None,
        },
        f => Some(LinksMapPlan::Read(f)),
    }
}

} // verus!
