//! The command protocol: what a command turns into, and how its answer is decoded.
use crate::error::RequestError;
use crate::json::{
    json_error_message, json_is_object, null_or_empty_array, parse_json, parsed_json, JsonDecode,
};
use vstd::prelude::*;
use vstd::string::{StrSliceExecFns, StringExecFns};

verus! {

#[derive(Debug, Clone, Copy, PartialEq, Eq, Structural)]
pub enum HttpMethod {
    GET,
    POST,
    DELETE,
}

impl Default for HttpMethod {
    fn default() -> (r: HttpMethod)
        ensures
            r == HttpMethod::GET,
    {
        HttpMethod::GET
    }
}

/// Everything needed to issue one request, apart from the connection.
#[derive(Debug, Clone)]
pub struct RequestData {
    /// Header overrides, as (lower-case name, value).
    pub header_map: Vec<(String, String)>,
    pub body: Vec<u8>,
    /// Query parameters, as (key, value); keys are unique.
    pub query_params: Vec<(String, String)>,
    /// The URL path, with each segment taken from a caller's string percent-encoded.
    pub path: String,
    pub method: HttpMethod,
}

impl RequestData {
    /// No query parameter key appears twice.
    pub open spec fn wf(&self) -> bool {
        forall|i: int, j: int|
            0 <= i < j < self.query_params@.len() ==> (#[trigger] self.query_params@[i]).0@
                != (#[trigger] self.query_params@[j]).0@
    }
}

impl Default for RequestData {
    fn default() -> (r: RequestData)
        ensures
            r.header_map@.len() == 0,
            r.body@.len() == 0,
            r.query_params@.len() == 0,
            r.path@.len() == 0,
            r.method == HttpMethod::GET,
            r.wf(),
    {
        RequestData {
            header_map: Vec::new(),
            body: Vec::new(),
            query_params: Vec::new(),
            path: String::new(),
            method: HttpMethod::GET,
        }
    }
}

pub open spec fn digit_char(d: nat) -> char {
    ((d % 10) + 48) as u8 as char
}

/// The decimal digits of a number, without leading zeros.
pub open spec fn decimal(n: nat) -> Seq<char>
    decreases n,
{
    if n < 10 {
        seq![digit_char(n)]
    } else {
        decimal(n / 10) + seq![digit_char(n % 10)]
    }
}

fn digit_str(d: usize) -> (r: &'static str)
    requires
        d < 10,
    ensures
        r@ == seq![digit_char(d as nat)],
{
    proof {
        reveal_strlit("0");
        reveal_strlit("1");
        reveal_strlit("2");
        reveal_strlit("3");
        reveal_strlit("4");
        reveal_strlit("5");
        reveal_strlit("6");
        reveal_strlit("7");
        reveal_strlit("8");
        reveal_strlit("9");
    }
    let r = if d == 0 {
        "0"
    } else if d == 1 {
        "1"
    } else if d == 2 {
        "2"
    } else if d == 3 {
        "3"
    } else if d == 4 {
        "4"
    } else if d == 5 {
        "5"
    } else if d == 6 {
        "6"
    } else if d == 7 {
        "7"
    } else if d == 8 {
        "8"
    } else {
        "9"
    };
    assert(r@ =~= seq![digit_char(d as nat)]);
    r
}

/// A number written in decimal.
pub fn decimal_string(n: usize) -> (r: String)
    ensures
        r@ == decimal(n as nat),
    decreases n,
{
    if n < 10 {
        String::from_str(digit_str(n))
    } else {
        let mut s = decimal_string(n / 10);
        s.append(digit_str(n % 10));
        s
    }
}

/// Whether two texts are the same.
pub(crate) fn text_eq(a: &str, b: &str) -> (r: bool)
    ensures
        r == (a@ == b@),
{
    let n = a.unicode_len();
    if n != b.unicode_len() {
        return false;
    }
    let mut i: usize = 0;
    while i < n
        invariant
            n == a@.len(),
            n == b@.len(),
            i <= n,
            forall|j: int| 0 <= j < i ==> a@[j] == b@[j],
        decreases n - i,
    {
        if a.get_char(i) != b.get_char(i) {
            return false;
        }
        i += 1;
    }
    assert(a@ =~= b@);
    true
}

impl RequestData {
    /// The length of the body in bytes, in decimal.
    pub fn get_content_length(&self) -> (r: String)
        ensures
            r@ == decimal(self.body@.len()),
    {
        decimal_string(self.body.len())
    }

    /// The headers of a request with a JSON body.
    pub fn default_post_headers() -> (r: Result<Vec<(String, String)>, RequestError>)
        ensures
            r matches Ok(h) && h@.len() == 1 && h@[0].0@ == "content-type"@ && h@[0].1@
                == "application/json"@,
    {
        let mut headers: Vec<(String, String)> = Vec::new();
        headers.push((String::from_str("content-type"), String::from_str("application/json")));
        Ok(headers)
    }
}

/// One API operation: it knows how to become a request, and which type its
/// answer decodes into.
pub trait SomfyApiRequestCommand {
    type Response: SomfyApiRequestResponse;

    fn to_request(&self) -> (r: Result<RequestData, RequestError>)
        ensures
            r matches Ok(d) ==> d.wf(),
    ;
}

/// What `from_body` makes of a body: the outcome of decoding the parsed JSON
/// document into `T`, or a body error where the text is not JSON.
pub open spec fn body_decodes<T: JsonDecode>(body: Seq<char>, r: Result<T, RequestError>) -> bool {
    match parsed_json(body) {
        None => r matches Err(e) && e is Body,
        Some(v) => {
            &&& r is Ok <==> T::json_shape(v)
            &&& r matches Ok(x) ==> T::json_decodes(v, x)
            &&& r matches Err(e) ==> e is Body
        },
    }
}

/// The status with which the gateway reports a missing resource.
pub const NOT_FOUND: u16 = 404;

/// A body with which an endpoint reports a missing resource: `null` or `[]`,
/// for an endpoint that answers so.
pub open spec fn not_found_body(answers_missing_with_literals: bool, body: Seq<char>) -> bool {
    answers_missing_with_literals && null_or_empty_array(body)
}

/// Everything `from_body` promises of its result `r` for `body`, where
/// `not_found` says whether the endpoint reserves `body` for "not found".
pub open spec fn body_outcome<T: JsonDecode>(
    not_found: bool,
    body: Seq<char>,
    r: Result<T, RequestError>,
) -> bool {
    &&& not_found ==> (r matches Err(RequestError::Status { status, .. }) && status
        == NOT_FOUND)
    &&& not_found ==> (parsed_json(body) matches Some(v) && !json_is_object(v))
    &&& !not_found ==> body_decodes::<T>(body, r)
    &&& match parsed_json(body) {
        Some(v) => T::json_shape(v) ==> (r matches Ok(x) && T::json_decodes(v, x)),
        None => true,
    }
}

/// The answer type of a command.
pub trait SomfyApiRequestResponse: JsonDecode {
    /// Whether the endpoint answers `null` or `[]` for a missing resource,
    /// where it should answer 404.
    spec fn answers_missing_with_literals() -> bool;

    /// Whether `body`, parsed as `v`, is one of the endpoint's not-found
    /// bodies; the document of such a body never has the shape of the answer.
    fn is_not_found_body(body: &str, v: &serde_json::Value) -> (r: bool)
        requires
            null_or_empty_array(body@) ==> !json_is_object(*v),
        ensures
            r == not_found_body(Self::answers_missing_with_literals(), body@),
            r ==> !Self::json_shape(*v),
    ;

    /// Decodes a response body. The body is parsed as JSON; a body that the
    /// endpoint uses to say "not found" then gives a not-found status error
    /// before any decoding; any other document is decoded by field names,
    /// unknown fields ignored. A document of the answer's shape always decodes,
    /// keeping every field's value; anything else is a body error.
    fn from_body(body: &str) -> (r: Result<Self, RequestError>)
        ensures
            body_outcome::<Self>(
                not_found_body(Self::answers_missing_with_literals(), body@),
                body@,
                r,
            ),
    {
        match parse_json(body) {
            Ok(v) => {
                if Self::is_not_found_body(body, &v) {
                    return Err(RequestError::Status { status: NOT_FOUND, source: None });
                }
                Self::from_json(&v)
            },
            Err(e) => Err(RequestError::Body(json_error_message(&e))),
        }
    }
}

} // verus!
