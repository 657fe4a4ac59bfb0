//! Bootstrap of the gateway's trusted root certificate.
//!
//! The vendor's root certificate is cached in one file under the user's home
//! directory. The decisions of the bootstrap are a state machine: each step
//! takes what the caller observed and names the next thing to do, which the
//! caller performs (create the folder, read the cache, download, write).
use crate::error::CertificateError;
use vstd::prelude::*;
use vstd::string::{StrSliceExecFns, StringExecFns};
use vstd::utf8::encode_utf8;

verus! {

/// Where the vendor publishes its root certificate.
pub const REMOTE_CERT_LOCATION: &'static str = "https://ca.overkiz.com/overkiz-root-ca-2048.crt";

/// The cache folder's name under the home directory.
pub const LOCAL_CERT_LOCATION_FOLDER: &'static str = ".somfy_sdk";

/// The cached certificate's file name.
pub const LOCAL_CERT_LOCATION_FILENAME: &'static str = "cert.crt";

/// The first line of a PEM certificate.
pub const PEM_HEADER: &'static str = "-----BEGIN CERTIFICATE-----";

/// A relative `name` appended to a directory path, with one separator between.
pub open spec fn path_join(base: Seq<char>, name: Seq<char>) -> Seq<char> {
    if base.len() == 0 || base.last() == '/' {
        base + name
    } else {
        base + "/"@ + name
    }
}

/// The cache folder under a home directory, or under the working directory
/// where no home directory is known.
pub open spec fn cert_folder(home: Option<Seq<char>>) -> Seq<char> {
    path_join(
        match home {
            Some(h) => h,
            None => "."@,
        },
        LOCAL_CERT_LOCATION_FOLDER@,
    )
}

/// Whether `s` begins with `prefix`.
pub open spec fn starts_with(s: Seq<char>, prefix: Seq<char>) -> bool {
    prefix.len() <= s.len() && s.subrange(0, prefix.len() as int) == prefix
}

fn join_path(base: &str, name: &str) -> (r: String)
    ensures
        r@ == path_join(base@, name@),
{
    let n = base.unicode_len();
    let mut p = String::from_str(base);
    if n > 0 && base.get_char(n - 1) != '/' {
        p.append("/");
    }
    p.append(name);
    p
}

fn has_prefix(s: &str, prefix: &str) -> (r: bool)
    ensures
        r == starts_with(s@, prefix@),
{
    let n = prefix.unicode_len();
    if n > s.unicode_len() {
        return false;
    }
    let mut i: usize = 0;
    while i < n
        invariant
            n == prefix@.len(),
            n <= s@.len(),
            i <= n,
            forall|j: int| 0 <= j < i ==> s@[j] == prefix@[j],
        decreases n - i,
    {
        if s.get_char(i) != prefix.get_char(i) {
            assert(s@.subrange(0, n as int)[i as int] != prefix@[i as int]);
            return false;
        }
        i += 1;
    }
    assert(s@.subrange(0, n as int) =~= prefix@);
    true
}

/// Relies on `dirs::home_dir`: the user's home directory, if one is known.
#[verifier::external_body]
fn home_directory() -> Option<String> {
    dirs::home_dir().map(|p| p.to_string_lossy().into_owned())
}

/// Where the certificate cache lives and what the bootstrap is waiting for.
pub struct TlsCertHandler;

impl TlsCertHandler {
    /// The cache folder under a home directory, or under the working directory
    /// where no home directory is known.
    pub fn folder_in(home: Option<&str>) -> (r: String)
        ensures
            r@ == cert_folder(
                match home {
                    Some(h) => Some(h@),
                    None => None,
                },
            ),
    {
        match home {
            Some(h) => join_path(h, LOCAL_CERT_LOCATION_FOLDER),
            None => join_path(".", LOCAL_CERT_LOCATION_FOLDER),
        }
    }

    /// The cached certificate's path in a cache folder.
    pub fn file_in(folder: &str) -> (r: String)
        ensures
            r@ == path_join(folder@, LOCAL_CERT_LOCATION_FILENAME@),
    {
        join_path(folder, LOCAL_CERT_LOCATION_FILENAME)
    }

    /// The cache folder under the current user's home directory.
    pub fn get_folder_location() -> (r: String)
        ensures
            exists|h: Option<Seq<char>>| r@ == #[trigger] cert_folder(h),
    {
        let home = home_directory();
        let r = match &home {
            Some(h) => Self::folder_in(Some(h.as_str())),
            None => Self::folder_in(None),
        };
        let ghost hv = match home {
            Some(h) => Some(h@),
            None => None,
        };
        assert(r@ == cert_folder(hv));
        r
    }

    /// The cached certificate's path under the current user's home directory.
    pub fn get_file_location() -> (r: String)
        ensures
            exists|h: Option<Seq<char>>|
                r@ == path_join(#[trigger] cert_folder(h), LOCAL_CERT_LOCATION_FILENAME@),
    {
        let folder = Self::get_folder_location();
        Self::file_in(folder.as_str())
    }
}

/// How far a bootstrap has come.
#[derive(Debug, Clone, Copy, PartialEq, Eq, Structural)]
pub enum BootstrapPhase {
    Start,
    CreatingFolder,
    ReadingCache,
    Downloading,
    WritingCache,
    Rereading,
    Finished,
}

/// What the caller observed when it performed the last action.
#[derive(Debug, Clone)]
pub enum BootstrapEvent {
    /// The bootstrap is asked to begin.
    Begin,
    /// The cache folder was created (or already existed), or could not be.
    FolderCreated { ok: bool },
    /// The cache file's contents, or `None` if it could not be read.
    CacheRead { contents: Option<Vec<u8>> },
    /// The downloaded text, or `None` if the download failed.
    Fetched { body: Option<String> },
    /// Whether the cache file was written.
    CacheWritten { ok: bool },
}

/// What the caller is to do next.
#[derive(Debug, Clone)]
pub enum BootstrapAction {
    CreateFolder { folder: String },
    ReadCache { path: String },
    Fetch { url: String },
    /// Replace the cache file with these bytes, so that no partial file is left.
    WriteCache { path: String, contents: Vec<u8> },
    /// Parse these bytes as a PEM certificate and trust it; a parse failure is
    /// an invalid local certificate.
    Trust { pem: Vec<u8> },
    Fail { error: CertificateError },
}

/// A bootstrap of the certificate cached in `folder`.
#[derive(Debug, Clone)]
pub struct CertBootstrap {
    pub phase: BootstrapPhase,
    pub folder: String,
    pub path: String,
}

/// One step of the bootstrap: from `s` and what was observed, `e`, to the
/// next state `s2` and the next action `a`. An event that does not answer the
/// pending action ends the bootstrap as an invalid cache.
pub open spec fn bootstrap_step(
    s: CertBootstrap,
    e: BootstrapEvent,
    s2: CertBootstrap,
    a: BootstrapAction,
) -> bool {
    &&& s2.folder == s.folder
    &&& s2.path == s.path
    &&& match (s.phase, e) {
        (BootstrapPhase::Start, BootstrapEvent::Begin) => s2.phase == BootstrapPhase::CreatingFolder
            && (a matches BootstrapAction::CreateFolder { folder } && folder@ == s.folder@),
        (BootstrapPhase::CreatingFolder, BootstrapEvent::FolderCreated { ok }) => if ok {
            s2.phase == BootstrapPhase::ReadingCache && (a matches BootstrapAction::ReadCache { path }
                && path@ == s.path@)
        } else {
            s2.phase == BootstrapPhase::Finished && a == (BootstrapAction::Fail {
                error: CertificateError::FileSystemError,
            })
        },
        (BootstrapPhase::ReadingCache, BootstrapEvent::CacheRead { contents }) => match contents {
            Some(bytes) => s2.phase == BootstrapPhase::Finished && a == (BootstrapAction::Trust {
                pem: bytes,
            }),
            None => s2.phase == BootstrapPhase::Downloading && (a matches BootstrapAction::Fetch { url }
                && url@ == REMOTE_CERT_LOCATION@),
        },
        (BootstrapPhase::Downloading, BootstrapEvent::Fetched { body }) => match body {
            Some(text) => if starts_with(text@, PEM_HEADER@) {
                s2.phase == BootstrapPhase::WritingCache && (a matches BootstrapAction::WriteCache {
                    path,
                    contents,
                } && path@ == s.path@ && contents@ == encode_utf8(text@))
            } else {
                s2.phase == BootstrapPhase::Finished && a == (BootstrapAction::Fail {
                    error: CertificateError::RemoteCertError,
                })
            },
            None => s2.phase == BootstrapPhase::Finished && a == (BootstrapAction::Fail {
                error: CertificateError::RemoteCertError,
            }),
        },
        (BootstrapPhase::WritingCache, BootstrapEvent::CacheWritten { ok }) => if ok {
            s2.phase == BootstrapPhase::Rereading && (a matches BootstrapAction::ReadCache { path }
                && path@ == s.path@)
        } else {
            s2.phase == BootstrapPhase::Finished && a == (BootstrapAction::Fail {
                error: CertificateError::FileSystemError,
            })
        },
        (BootstrapPhase::Rereading, BootstrapEvent::CacheRead { contents }) => match contents {
            Some(bytes) => s2.phase == BootstrapPhase::Finished && a == (BootstrapAction::Trust {
                pem: bytes,
            }),
            None => s2.phase == BootstrapPhase::Finished && a == (BootstrapAction::Fail {
                error: CertificateError::InvalidLocalCert,
            }),
        },
        _ => s2.phase == BootstrapPhase::Finished && a == (BootstrapAction::Fail {
            error: CertificateError::InvalidLocalCert,
        }),
    }
}

impl CertBootstrap {
    /// A bootstrap of the certificate cached in `folder`.
    pub fn new(folder: String) -> (r: CertBootstrap)
        ensures
            r.phase == BootstrapPhase::Start,
            r.folder == folder,
            r.path@ == path_join(folder@, LOCAL_CERT_LOCATION_FILENAME@),
    {
        let path = TlsCertHandler::file_in(folder.as_str());
        CertBootstrap { phase: BootstrapPhase::Start, folder, path }
    }

    /// A bootstrap of the cache under the current user's home directory.
    pub fn default_location() -> (r: CertBootstrap)
        ensures
            r.phase == BootstrapPhase::Start,
            exists|h: Option<Seq<char>>| r.folder@ == #[trigger] cert_folder(h),
            r.path@ == path_join(r.folder@, LOCAL_CERT_LOCATION_FILENAME@),
    {
        Self::new(TlsCertHandler::get_folder_location())
    }

    /// Takes what was observed and says what to do next.
    pub fn advance(&mut self, event: BootstrapEvent) -> (a: BootstrapAction)
        ensures
            bootstrap_step(*old(self), event, *final(self), a),
    {
        let ghost e = event;
        match (self.phase, event) {
            (BootstrapPhase::Start, BootstrapEvent::Begin) => {
                self.phase = BootstrapPhase::CreatingFolder;
                BootstrapAction::CreateFolder { folder: self.folder.clone() }
            },
            (BootstrapPhase::CreatingFolder, BootstrapEvent::FolderCreated { ok }) => {
                if ok {
                    self.phase = BootstrapPhase::ReadingCache;
                    BootstrapAction::ReadCache { path: self.path.clone() }
                } else {
                    self.phase = BootstrapPhase::Finished;
                    BootstrapAction::Fail { error: CertificateError::FileSystemError }
                }
            },
            (BootstrapPhase::ReadingCache, BootstrapEvent::CacheRead { contents }) => {
                match contents {
                    Some(bytes) => {
                        self.phase = BootstrapPhase::Finished;
                        BootstrapAction::Trust { pem: bytes }
                    },
                    None => {
                        self.phase = BootstrapPhase::Downloading;
                        BootstrapAction::Fetch { url: String::from_str(REMOTE_CERT_LOCATION) }
                    },
                }
            },
            (BootstrapPhase::Downloading, BootstrapEvent::Fetched { body }) => {
                match body {
                    Some(text) => {
                        if has_prefix(text.as_str(), PEM_HEADER) {
                            self.phase = BootstrapPhase::WritingCache;
                            BootstrapAction::WriteCache {
                                path: self.path.clone(),
                                contents: text.as_str().as_bytes_vec(),
                            }
                        } else {
                            self.phase = BootstrapPhase::Finished;
                            BootstrapAction::Fail { error: CertificateError::RemoteCertError }
                        }
                    },
                    None => {
                        self.phase = BootstrapPhase::Finished;
                        BootstrapAction::Fail { error: CertificateError::RemoteCertError }
                    },
                }
            },
            (BootstrapPhase::WritingCache, BootstrapEvent::CacheWritten { ok }) => {
                if ok {
                    self.phase = BootstrapPhase::Rereading;
                    BootstrapAction::ReadCache { path: self.path.clone() }
                } else {
                    self.phase = BootstrapPhase::Finished;
                    BootstrapAction::Fail { error: CertificateError::FileSystemError }
                }
            },
            (BootstrapPhase::Rereading, BootstrapEvent::CacheRead { contents }) => {
                self.phase = BootstrapPhase::Finished;
                match contents {
                    Some(bytes) => BootstrapAction::Trust { pem: bytes },
                    None => BootstrapAction::Fail { error: CertificateError::InvalidLocalCert },
                }
            },
            _ => {
                self.phase = BootstrapPhase::Finished;
                BootstrapAction::Fail { error: CertificateError::InvalidLocalCert }
            },
        }
    }
}

/// The only bytes a bootstrap ever writes to the cache are downloaded text
/// that begins with the PEM certificate header: after a cold-cache bootstrap
/// the cached file begins with `-----BEGIN CERTIFICATE-----`.
pub proof fn lemma_cache_written_only_with_pem(
    s: CertBootstrap,
    e: BootstrapEvent,
    s2: CertBootstrap,
    a: BootstrapAction,
)
    requires
        bootstrap_step(s, e, s2, a),
        a is WriteCache,
    ensures
        e matches BootstrapEvent::Fetched { body: Some(text) } && starts_with(text@, PEM_HEADER@)
            && a->WriteCache_contents@ == encode_utf8(text@),
{
}

/// With a warm cache a bootstrap makes no download: it creates the folder,
/// reads the cache, and trusts exactly the bytes it read.
pub proof fn lemma_warm_cache_skips_download(
    s0: CertBootstrap,
    s1: CertBootstrap,
    a1: BootstrapAction,
    s2: CertBootstrap,
    a2: BootstrapAction,
    s3: CertBootstrap,
    a3: BootstrapAction,
    cached: Vec<u8>,
)
    requires
        s0.phase == BootstrapPhase::Start,
        bootstrap_step(s0, BootstrapEvent::Begin, s1, a1),
        bootstrap_step(s1, BootstrapEvent::FolderCreated { ok: true }, s2, a2),
        bootstrap_step(s2, BootstrapEvent::CacheRead { contents: Some(cached) }, s3, a3),
    ensures
        a1 is CreateFolder,
        a2 matches BootstrapAction::ReadCache { path } && path@ == s0.path@,
        a3 == (BootstrapAction::Trust { pem: cached }),
        s3.phase == BootstrapPhase::Finished,
{
}

} // verus!
