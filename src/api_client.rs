//! The execution engine: connection configuration, and the decisions of a
//! call on either side of the HTTP exchange, which the caller performs.
use crate::error::{classified, string_views, CustomServerError, RequestError, TransportFailure};
use crate::request::{decimal, decimal_string, HttpMethod, RequestData, SomfyApiRequestResponse};
use crate::request::{body_outcome, not_found_body, text_eq};
use vstd::prelude::*;
use vstd::string::{StrSliceExecFns, StringExecFns, StringSliceAdditionalSpecFns};

verus! {

#[derive(Debug, Clone, Copy, PartialEq, Eq, Structural)]
pub enum HttpProtocol {
    HTTP,
    HTTPS,
}

/// Where the trusted root certificate comes from.
#[derive(Debug, Clone, PartialEq)]
pub enum CertificateHandling {
    /// A PEM file at this path.
    CertProvided(String),
    /// The vendor's root certificate, cached under the home directory.
    DefaultCert,
}

#[derive(Debug, Clone, PartialEq)]
pub struct ApiClientConfig {
    pub cert_handling: CertificateHandling,
    pub protocol: HttpProtocol,
    pub url: String,
    pub port: usize,
    pub api_key: String,
}

#[derive(Debug, Clone, PartialEq)]
pub struct ApiClient {
    config: ApiClientConfig,
}

/// The port on which the gateway serves its local API.
pub const DEFAULT_PORT: usize = 8443;

/// A request as it goes on the wire.
#[derive(Debug, Clone)]
pub struct PreparedRequest {
    pub method: HttpMethod,
    pub url: String,
    /// Headers in the order they are set, as (lower-case name, value).
    pub headers: Vec<(String, String)>,
    /// The body; empty unless the method is POST.
    pub body: Vec<u8>,
}

/// What the transport reports of an exchange.
#[derive(Debug, Clone)]
pub enum Exchange {
    /// The server answered with this status and body text.
    Answered { status: u16, body: String },
    /// The exchange failed before a body could be read.
    Failed(TransportFailure),
}

pub open spec fn scheme(p: HttpProtocol) -> Seq<char> {
    match p {
        HttpProtocol::HTTP => "http"@,
        HttpProtocol::HTTPS => "https"@,
    }
}

/// The URL of a path on the configured gateway.
pub open spec fn request_url(c: ApiClientConfig, path: Seq<char>) -> Seq<char> {
    scheme(c.protocol) + "://"@ + c.url@ + ":"@ + decimal(c.port as nat) + path
}

/// A byte that an HTTP header value may hold.
pub open spec fn header_byte_ok(b: u8) -> bool {
    (b >= 32 && b != 127) || b == 9
}

pub open spec fn header_value_ok(s: Seq<char>) -> bool {
    forall|i: int|
        0 <= i < vstd::utf8::encode_utf8(s).len() ==> header_byte_ok(
            #[trigger] vstd::utf8::encode_utf8(s)[i],
        )
}

/// Relies on `reqwest::header::HeaderValue::from_str`: it accepts a string
/// exactly when every byte is at least 32 and not 127, or is a tab.
#[verifier::external_body]
fn header_value_accepted(s: &str) -> (r: bool)
    ensures
        r == header_value_ok(s@),
{
    reqwest::header::HeaderValue::from_str(s).is_ok()
}

pub open spec fn bearer(key: Seq<char>) -> Seq<char> {
    "Bearer "@ + key
}

pub open spec fn header_views(h: Seq<(String, String)>) -> Seq<(Seq<char>, Seq<char>)> {
    h.map_values(|p: (String, String)| (p.0@, p.1@))
}

/// Whether the headers set `name`.
pub open spec fn sets_header(h: Seq<(Seq<char>, Seq<char>)>, name: Seq<char>) -> bool {
    exists|i: int| 0 <= i < h.len() && (#[trigger] h[i]).0 == name
}

/// The headers of a request: authorization first, then the command's own,
/// then for a POST the body's length and, unless the command set one, its
/// JSON content type.
pub open spec fn request_headers(key: Seq<char>, d: RequestData) -> Seq<(Seq<char>, Seq<char>)> {
    let own = header_views(d.header_map@);
    let auth = seq![("authorization"@, bearer(key))];
    if d.method == HttpMethod::POST {
        let length = seq![("content-length"@, decimal(d.body@.len()))];
        if sets_header(own, "content-type"@) {
            auth + own + length
        } else {
            auth + own + length + seq![("content-type"@, "application/json"@)]
        }
    } else {
        auth + own
    }
}

/// The request that `d` becomes on the configured gateway.
pub open spec fn prepared_for(c: ApiClientConfig, d: RequestData, p: PreparedRequest) -> bool {
    &&& p.method == d.method
    &&& p.url@ == request_url(c, d.path@)
    &&& header_views(p.headers@) == request_headers(c.api_key@, d)
    &&& p.body@ == if d.method == HttpMethod::POST {
        d.body@
    } else {
        Seq::empty()
    }
}

/// A status of the 2xx class: the only answers whose body is decoded.
pub open spec fn is_success(status: u16) -> bool {
    200 <= status && status <= 299
}

/// What a call returns for what the transport reported: a success is decoded
/// from its body; any other status, and a failed exchange, is classified.
pub open spec fn call_result<R: SomfyApiRequestResponse>(
    x: Exchange,
    r: Result<R, RequestError>,
) -> bool {
    match x {
        Exchange::Answered { status, body } => if is_success(status) {
            body_outcome::<R>(not_found_body(R::answers_missing_with_literals(), body@), body@, r)
        } else {
            &&& r is Err
            &&& classified(Some(status), Seq::empty(), r->Err_0)
        },
        Exchange::Failed(f) => {
            &&& r is Err
            &&& classified(f.status, string_views(f.sources@), r->Err_0)
            &&& r->Err_0 matches RequestError::Transport(m) ==> m@ == f.message@
        },
    }
}

proof fn lemma_header_views_push(h: Seq<(String, String)>, p: (String, String))
    ensures
        header_views(h.push(p)) == header_views(h).push((p.0@, p.1@)),
{
    assert(header_views(h.push(p)) =~= header_views(h).push((p.0@, p.1@)));
}

fn header_is_set(h: &Vec<(String, String)>, name: &str) -> (r: bool)
    ensures
        r == sets_header(header_views(h@), name@),
{
    let ghost hv = header_views(h@);
    let mut i: usize = 0;
    while i < h.len()
        invariant
            hv == header_views(h@),
            i <= h@.len(),
            forall|j: int| 0 <= j < i ==> (#[trigger] hv[j]).0 != name@,
        decreases h.len() - i,
    {
        if text_eq(h[i].0.as_str(), name) {
            assert(hv[i as int].0 == name@);
            return true;
        }
        i += 1;
    }
    false
}

fn clone_headers(h: &Vec<(String, String)>) -> (r: Vec<(String, String)>)
    ensures
        header_views(r@) == header_views(h@),
{
    let mut out: Vec<(String, String)> = Vec::new();
    let mut i: usize = 0;
    while i < h.len()
        invariant
            i <= h@.len(),
            header_views(out@) =~= header_views(h@).subrange(0, i as int),
        decreases h.len() - i,
    {
        let ghost prev = out@;
        let item = (h[i].0.clone(), h[i].1.clone());
        out.push(item);
        proof {
            lemma_header_views_push(prev, item);
            assert(header_views(h@)[i as int] == (h@[i as int].0@, h@[i as int].1@));
        }
        i += 1;
        assert(header_views(out@) =~= header_views(h@).subrange(0, i as int));
    }
    assert(header_views(h@).subrange(0, h@.len() as int) =~= header_views(h@));
    out
}

fn pair(a: &str, b: &str) -> (r: (String, String))
    ensures
        r.0@ == a@,
        r.1@ == b@,
{
    (String::from_str(a), String::from_str(b))
}

impl ApiClient {
    pub closed spec fn spec_config(&self) -> ApiClientConfig {
        self.config
    }

    pub fn new(config: ApiClientConfig) -> (r: ApiClient)
        ensures
            r.spec_config() == config,
    {
        ApiClient { config }
    }

    /// A client for the gateway with this id on the local network, over TLS on
    /// the default port, trusting the vendor's root certificate.
    pub fn from(id: &str, api_key: &str) -> (r: ApiClient)
        ensures
            r.spec_config().url@ == "gateway-"@ + id@ + ".local"@,
            r.spec_config().port == DEFAULT_PORT,
            r.spec_config().api_key@ == api_key@,
            r.spec_config().protocol == HttpProtocol::HTTPS,
            r.spec_config().cert_handling == CertificateHandling::DefaultCert,
    {
        let mut url = String::from_str("gateway-");
        url.append(id);
        url.append(".local");
        Self::new(
            ApiClientConfig {
                url,
                port: DEFAULT_PORT,
                api_key: String::from_str(api_key),
                protocol: HttpProtocol::HTTPS,
                cert_handling: CertificateHandling::DefaultCert,
            },
        )
    }

    pub fn config(&self) -> (r: &ApiClientConfig)
        ensures
            *r == self.spec_config(),
    {
        &self.config
    }

    /// The URL of a request's path on the configured gateway.
    pub fn generate_base_url(&self, request_data: &RequestData) -> (r: String)
        ensures
            r@ == request_url(self.spec_config(), request_data.path@),
    {
        let mut url = String::from_str(
            match self.config.protocol {
                HttpProtocol::HTTP => "http",
                HttpProtocol::HTTPS => "https",
            },
        );
        url.append("://");
        url.append(self.config.url.as_str());
        url.append(":");
        let port = decimal_string(self.config.port);
        url.append(port.as_str());
        url.append(request_data.path.as_str());
        url
    }

    /// The headers every request carries: the API key as a bearer token. An
    /// API key that cannot stand in a header is a server error.
    pub fn generate_default_headers(&self) -> (r: Result<Vec<(String, String)>, RequestError>)
        ensures
            r is Ok <==> header_value_ok(bearer(self.spec_config().api_key@)),
            r matches Ok(h) ==> header_views(h@) == seq![
                ("authorization"@, bearer(self.spec_config().api_key@)),
            ],
            r matches Err(e) ==> e is Server,
    {
        let mut token = String::from_str("Bearer ");
        token.append(self.config.api_key.as_str());
        if !header_value_accepted(token.as_str()) {
            return Err(
                RequestError::Server(
                    CustomServerError(String::from_str("failed to parse header value")),
                ),
            );
        }
        let mut headers: Vec<(String, String)> = Vec::new();
        headers.push((String::from_str("authorization"), token));
        assert(header_views(headers@) =~= seq![
            ("authorization"@, bearer(self.spec_config().api_key@)),
        ]);
        Ok(headers)
    }

    /// What is sent for a command's request: its method, the full URL, the
    /// headers, and the body for a POST.
    pub fn prepare_request(&self, request_data: RequestData) -> (r: Result<
        PreparedRequest,
        RequestError,
    >)
        ensures
            r is Ok <==> header_value_ok(bearer(self.spec_config().api_key@)),
            r matches Ok(p) ==> prepared_for(self.spec_config(), request_data, p),
            r matches Err(e) ==> e is Server,
    {
        let mut headers = self.generate_default_headers()?;
        let url = self.generate_base_url(&request_data);
        let own = clone_headers(&request_data.header_map);
        let ghost auth = header_views(headers@);
        let mut i: usize = 0;
        while i < own.len()
            invariant
                i <= own@.len(),
                header_views(headers@) =~= auth + header_views(own@).subrange(0, i as int),
            decreases own.len() - i,
        {
            let ghost prev = headers@;
            let item = (own[i].0.clone(), own[i].1.clone());
            headers.push(item);
            proof {
                lemma_header_views_push(prev, item);
                assert(header_views(own@)[i as int] == (own@[i as int].0@, own@[i as int].1@));
            }
            i += 1;
            assert(header_views(headers@) =~= auth + header_views(own@).subrange(0, i as int));
        }
        assert(header_views(own@).subrange(0, own@.len() as int) =~= header_views(own@));
        let body = match request_data.method {
            HttpMethod::POST => {
                let length = request_data.get_content_length();
                let ghost before = headers@;
                let item = (String::from_str("content-length"), length);
                headers.push(item);
                proof {
                    lemma_header_views_push(before, item);
                }
                assert(header_views(headers@) =~= header_views(before) + seq![
                    ("content-length"@, decimal(request_data.body@.len())),
                ]);
                if !header_is_set(&request_data.header_map, "content-type") {
                    let ghost before2 = headers@;
                    let item2 = pair("content-type", "application/json");
                    headers.push(item2);
                    proof {
                        lemma_header_views_push(before2, item2);
                    }
                    assert(header_views(headers@) =~= header_views(before2) + seq![
                        ("content-type"@, "application/json"@),
                    ]);
                }
                request_data.body
            },
            _ => Vec::new(),
        };
        let p = PreparedRequest { method: request_data.method, url, headers, body };
        assert(header_views(p.headers@) =~= request_headers(self.spec_config().api_key@, request_data));
        Ok(p)
    }

    /// The result of a call for what the transport reported: a 2xx answer
    /// is decoded from its body by the command's response type; any other
    /// status is classified as an error without reading the body; a failed
    /// exchange is classified by its status and causes.
    pub fn finish<R: SomfyApiRequestResponse>(exchange: Exchange) -> (r: Result<R, RequestError>)
        ensures
            call_result(exchange, r),
    {
        match exchange {
            Exchange::Answered { status, body } => {
                if 200 <= status && status <= 299 {
                    R::from_body(body.as_str())
                } else {
                    Err(RequestError::from_status(status, None))
                }
            },
            Exchange::Failed(f) => Err(RequestError::from(f)),
        }
    }
}

} // verus!
