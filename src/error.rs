//! The failures a call can end in, and how a transport failure is classified.
use vstd::prelude::*;
use crate::request::{decimal, decimal_string};
use vstd::string::{StrSliceExecFns, StringExecFns};

verus! {

/// A failure of the certificate bootstrap.
#[derive(Debug, Clone, PartialEq, Eq, Structural)]
pub enum CertificateError {
    /// The vendor's root certificate could not be downloaded.
    RemoteCertError,
    /// The cached certificate could not be read or is not a PEM certificate.
    InvalidLocalCert,
    /// The cache directory or file could not be written.
    FileSystemError,
}

/// A server-side or internal failure, described by a message.
#[derive(Debug, Clone)]
pub struct CustomServerError(pub String);

/// The request and the response of a call did not fit together.
#[derive(Debug, Clone, PartialEq, Eq, Structural)]
pub struct RequestResponseMappingError;

/// Why a call failed.
#[derive(Debug, Clone)]
#[allow(inconsistent_fields)]
pub enum RequestError {
    /// Network or protocol trouble (DNS, connect, timeout, malformed HTTP), with its message.
    Transport(String),
    /// The server answered with a status that is not a success; `source` is
    /// the transport's own message, where it reported the status as a failure.
    Status { status: u16, source: Option<String> },
    /// The credentials were refused.
    Auth { message: String, status: Option<u16>, source: Option<String> },
    /// The body could not be encoded or did not decode into the expected shape.
    Body(String),
    /// The TLS certificate was rejected or could not be obtained.
    Cert,
    /// Any other failure.
    Server(CustomServerError),
}

pub open spec fn ascii_lower(c: char) -> char {
    if 'A' <= c <= 'Z' {
        ((c as u32) + 32) as char
    } else {
        c
    }
}

pub open spec fn lower_chars(s: Seq<char>) -> Seq<char> {
    s.map_values(|c: char| ascii_lower(c))
}

/// `needle` occurs in `hay` as a contiguous run.
pub open spec fn occurs_in(needle: Seq<char>, hay: Seq<char>) -> bool {
    exists|i: int| 0 <= i && i + needle.len() <= hay.len() && #[trigger] hay.subrange(i, i + needle.len()) == needle
}

/// A transport error message that speaks of certificates, TLS or SSL, in any ASCII case.
pub open spec fn mentions_tls(msg: Seq<char>) -> bool {
    occurs_in("certificate"@, lower_chars(msg)) || occurs_in("tls"@, lower_chars(msg)) || occurs_in(
        "ssl"@,
        lower_chars(msg),
    )
}

/// Whether `needle` occurs in `hay` with the letters of `hay` taken in lower case.
fn occurs_lowered(needle: &str, hay: &str) -> (r: bool)
    ensures
        r == occurs_in(needle@, lower_chars(hay@)),
{
    let n = needle.unicode_len();
    let h = hay.unicode_len();
    let ghost low = lower_chars(hay@);
    if n > h {
        assert forall|i: int| 0 <= i && i + n <= h implies #[trigger] low.subrange(i, i + n as int)
            != needle@ by {}
        return false;
    }
    let mut i: usize = 0;
    while i <= h - n
        invariant
            n <= h,
            n == needle@.len(),
            h == hay@.len(),
            low == lower_chars(hay@),
            forall|k: int| 0 <= k < i ==> #[trigger] low.subrange(k, k + n as int) != needle@,
        decreases h - n + 1 - i,
    {
        let mut j: usize = 0;
        let mut same = true;
        while j < n
            invariant
                i + n <= h,
                n == needle@.len(),
                h == hay@.len(),
                low == lower_chars(hay@),
                j <= n,
                same == (forall|t: int| 0 <= t < j ==> low[i + t] == needle@[t]),
            decreases n - j,
        {
            let c = hay.get_char(i + j);
            let lc = if 'A' <= c && c <= 'Z' {
                ((c as u32) + 32) as u8 as char
            } else {
                c
            };
            assert(lc == ascii_lower(c)) by {
                if 'A' <= c && c <= 'Z' {
                    assert(((c as u32) + 32) as u8 as char == ((c as u32) + 32) as char);
                }
            }
            if lc != needle.get_char(j) {
                same = false;
            }
            j += 1;
        }
        if same {
            assert(low.subrange(i as int, i + n as int) =~= needle@);
            return true;
        }
        assert(low[i + (j - 1)] != needle@[j - 1] || exists|t: int| 0 <= t < n && low[i + t] != needle@[t]);
        assert(low.subrange(i as int, i + n as int) != needle@) by {
            let t = choose|t: int| 0 <= t < n && low[i + t] != needle@[t];
            assert(low.subrange(i as int, i + n as int)[t] == low[i + t]);
        }
        i += 1;
    }
    false
}

/// Whether a message speaks of certificates, TLS or SSL.
pub fn is_tls_message(msg: &str) -> (r: bool)
    ensures
        r == mentions_tls(msg@),
{
    occurs_lowered("certificate", msg) || occurs_lowered("tls", msg) || occurs_lowered("ssl", msg)
}

/// The text of each string.
pub open spec fn string_views(v: Seq<String>) -> Seq<Seq<char>> {
    v.map_values(|s: String| s@)
}

/// What a transport failure is classified as: `status` is the HTTP status if the
/// server answered, `sources` the messages of the error's chain of causes.
pub open spec fn classified(status: Option<u16>, sources: Seq<Seq<char>>, r: RequestError) -> bool {
    match status {
        Some(code) => if code == 401 || code == 403 {
            r matches RequestError::Auth { status: s, .. } && s == Some(code)
        } else {
            r matches RequestError::Status { status: s, .. } && s == code
        },
        None => if exists|i: int| 0 <= i < sources.len() && mentions_tls(#[trigger] sources[i]) {
            r is Cert
        } else {
            r is Transport
        },
    }
}

/// A failure on the server's side: a 5xx status, or an internal server error.
pub open spec fn is_server_class(e: RequestError) -> bool {
    (e matches RequestError::Status { status, .. } && status >= 500) || e is Server
}

/// How classification treats the three kinds of failure that callers act on:
/// 401 and 403 are authentication errors, a status of 500 or more is a
/// server-side error, and a failure without a status whose causes speak of
/// certificates, TLS or SSL is a certificate error.
pub proof fn lemma_classification(status: Option<u16>, sources: Seq<Seq<char>>, r: RequestError)
    requires
        classified(status, sources, r),
    ensures
        status == Some(401u16) || status == Some(403u16) ==> r is Auth,
        (status matches Some(code) && code >= 500) ==> is_server_class(r),
        (status is None && exists|i: int| 0 <= i < sources.len() && mentions_tls(#[trigger] sources[i]))
            ==> r is Cert,
{
}

impl RequestError {
    /// The error for an HTTP status that is not a success: 401 and 403 are
    /// authentication failures, any other status is kept as it is.
    pub(crate) fn from_status(code: u16, source: Option<String>) -> (r: RequestError)
        ensures
            classified(Some(code), Seq::empty(), r),
            r matches RequestError::Status { source: s, .. } ==> s == source,
            r matches RequestError::Auth { source: s, .. } ==> s == source,
    {
        if code == 401 || code == 403 {
            RequestError::Auth { message: String::from_str("auth failed"), status: Some(code), source }
        } else {
            RequestError::Status { status: code, source }
        }
    }

    /// The server answered "not found".
    pub fn is_not_found(&self) -> (r: bool)
        ensures
            r == (*self matches RequestError::Status { status, .. } && status == 404),
    {
        match self {
            RequestError::Status { status, .. } => *status == 404,
            _ => false,
        }
    }

    /// The server failed: a 5xx status, or an internal server error.
    pub fn is_server_error(&self) -> (r: bool)
        ensures
            r == is_server_class(*self),
    {
        match self {
            RequestError::Status { status, .. } => *status >= 500,
            RequestError::Server(_) => true,
            _ => false,
        }
    }

    /// The request was refused as a client error: a 4xx status other than 404,
    /// or an authentication failure.
    pub fn is_client_error(&self) -> (r: bool)
        ensures
            r == (*self matches RequestError::Status { status, .. } && 400 <= status && status < 500
                && status != 404 || self is Auth),
    {
        match self {
            RequestError::Status { status, .. } => 400 <= *status && *status < 500 && *status != 404,
            RequestError::Auth { .. } => true,
            _ => false,
        }
    }
}

impl CertificateError {
    pub fn to_string(&self) -> (r: String)
        ensures
            r@ == match self {
                CertificateError::RemoteCertError => "remote cert could not be retrieved"@,
                CertificateError::InvalidLocalCert => "local cert is invalid"@,
                CertificateError::FileSystemError => "fs error"@,
            },
    {
        match self {
            CertificateError::RemoteCertError => String::from_str("remote cert could not be retrieved"),
            CertificateError::InvalidLocalCert => String::from_str("local cert is invalid"),
            CertificateError::FileSystemError => String::from_str("fs error"),
        }
    }
}

impl CustomServerError {
    pub fn to_string(&self) -> (r: String)
        ensures
            r@ == "server error occurred: "@ + self.0@,
    {
        let mut out = String::from_str("server error occurred: ");
        out.append(self.0.as_str());
        out
    }
}

impl RequestResponseMappingError {
    pub fn to_string(&self) -> (r: String)
        ensures
            r@ == "error in request / response mapping"@,
    {
        String::from_str("error in request / response mapping")
    }
}

impl RequestError {
    /// A description of the failure.
    pub open spec fn text(&self) -> Seq<char> {
        match self {
            RequestError::Transport(_) => "transport error"@,
            RequestError::Status { status, .. } => "http status "@ + decimal(*status as nat),
            RequestError::Auth { message, .. } => "authentication error: "@ + message@,
            RequestError::Body(_) => "invalid body"@,
            RequestError::Cert => "tls certificate rejected"@,
            RequestError::Server(e) => "server error occurred: "@ + e.0@,
        }
    }

    pub fn to_string(&self) -> (r: String)
        ensures
            r@ == self.text(),
    {
        match self {
            RequestError::Transport(_) => String::from_str("transport error"),
            RequestError::Status { status, .. } => {
                let mut out = String::from_str("http status ");
                let digits = decimal_string(*status as usize);
                out.append(digits.as_str());
                out
            },
            RequestError::Auth { message, .. } => {
                let mut out = String::from_str("authentication error: ");
                out.append(message.as_str());
                out
            },
            RequestError::Body(_) => String::from_str("invalid body"),
            RequestError::Cert => String::from_str("tls certificate rejected"),
            RequestError::Server(e) => e.to_string(),
        }
    }
}

/// A failed exchange as the transport reports it: the HTTP status if the
/// server answered, the messages of the error's chain of causes (outermost
/// first), and the error's own message.
#[derive(Debug, Clone)]
pub struct TransportFailure {
    pub status: Option<u16>,
    pub sources: Vec<String>,
    pub message: String,
}

impl From<TransportFailure> for RequestError {
    /// Classifies a failed exchange. With an HTTP status, 401 and 403 are
    /// authentication failures and any other status is kept as it is, each
    /// carrying the transport's message. Without one, a cause that speaks of
    /// certificates, TLS or SSL makes it a certificate error; otherwise it is
    /// a transport error carrying the message.
    fn from(f: TransportFailure) -> (r: RequestError)
        ensures
            classified(f.status, string_views(f.sources@), r),
            r matches RequestError::Transport(m) ==> m@ == f.message@,
            r matches RequestError::Status { source: s, .. } ==> s == Some(f.message),
            r matches RequestError::Auth { source: s, .. } ==> s == Some(f.message),
    {
        let ghost msgs = string_views(f.sources@);
        let status = f.status;
        match status {
            Some(code) => RequestError::from_status(code, Some(f.message)),
            None => {
                let mut i: usize = 0;
                while i < f.sources.len()
                    invariant
                        f.status is None,
                        msgs == string_views(f.sources@),
                        i <= f.sources.len(),
                        forall|k: int| 0 <= k < i ==> !mentions_tls(#[trigger] msgs[k]),
                    decreases f.sources.len() - i,
                {
                    if is_tls_message(f.sources[i].as_str()) {
                        assert(msgs[i as int] == f.sources@[i as int]@);
                        assert(mentions_tls(msgs[i as int]));
                        return RequestError::Cert;
                    }
                    i += 1;
                }
                RequestError::Transport(f.message)
            },
        }
    }
}

impl vstd::std_specs::convert::FromSpecImpl<TransportFailure> for RequestError {
    open spec fn obeys_from_spec() -> bool {
        false
    }

    open spec fn from_spec(f: TransportFailure) -> RequestError {
        arbitrary()
    }
}

impl From<CustomServerError> for RequestError {
    fn from(value: CustomServerError) -> (r: RequestError) {
        RequestError::Server(CustomServerError(value.0.clone()))
    }
}

impl vstd::std_specs::convert::FromSpecImpl<CustomServerError> for RequestError {
    open spec fn obeys_from_spec() -> bool {
        true
    }

    open spec fn from_spec(v: CustomServerError) -> RequestError {
        RequestError::Server(v)
    }
}

impl From<RequestResponseMappingError> for RequestError {
    fn from(value: RequestResponseMappingError) -> (r: RequestError)
        ensures
            r matches RequestError::Server(e) && e.0@ == "Error in request / response mapping"@,
    {
        RequestError::Server(CustomServerError(String::from_str("Error in request / response mapping")))
    }
}

impl vstd::std_specs::convert::FromSpecImpl<RequestResponseMappingError> for RequestError {
    open spec fn obeys_from_spec() -> bool {
        false
    }

    open spec fn from_spec(v: RequestResponseMappingError) -> RequestError {
        arbitrary()
    }
}

} // verus!
