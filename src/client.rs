use vstd::prelude::*;
use vstd::string::{StrSliceExecFns, StringExecFns};

use crate::json::{DecodeError, JValue};
use crate::types::requests::CreateResponseBody;
use crate::types::responses::ResponseResource;
use crate::text::{decode_text, parsed_json};
use crate::wire::Wire;

verus! {

/// Why a request for a whole response failed.
#[derive(Debug, Clone, PartialEq)]
pub enum ClientError {
    /// The request could not be sent, or its answer not received.
    HttpError(String),
    /// The answer could not be read as a response.
    JsonError(DecodeError),
    /// The server refused the request: its status code and its answer, verbatim.
    ApiError { code: String, message: String },
    /// A header could not be built.
    InvalidHeader(String),
}

/// The character for a decimal digit.
pub open spec fn digit_char(d: nat) -> char {
    if d == 0 {
        '0'
    } else if d == 1 {
        '1'
    } else if d == 2 {
        '2'
    } else if d == 3 {
        '3'
    } else if d == 4 {
        '4'
    } else if d == 5 {
        '5'
    } else if d == 6 {
        '6'
    } else if d == 7 {
        '7'
    } else if d == 8 {
        '8'
    } else {
        '9'
    }
}

/// The decimal digits of a number, without leading zeros.
pub open spec fn decimal_text(n: nat) -> Seq<char>
    decreases n,
{
    if n < 10 {
        seq![digit_char(n)]
    } else {
        decimal_text(n / 10).push(digit_char(n % 10))
    }
}

fn digit_str(d: u16) -> (r: &'static str)
    requires
        d < 10,
    ensures
        r@ == seq![digit_char(d as nat)],
{
    proof {
        reveal_strlit("0");
        reveal_strlit("1");
        reveal_strlit("2");
        reveal_strlit("3");
        reveal_strlit("4");
        reveal_strlit("5");
        reveal_strlit("6");
        reveal_strlit("7");
        reveal_strlit("8");
        reveal_strlit("9");
    }
    if d == 0 {
        "0"
    } else if d == 1 {
        "1"
    } else if d == 2 {
        "2"
    } else if d == 3 {
        "3"
    } else if d == 4 {
        "4"
    } else if d == 5 {
        "5"
    } else if d == 6 {
        "6"
    } else if d == 7 {
        "7"
    } else if d == 8 {
        "8"
    } else {
        "9"
    }
}

/// The decimal text of an HTTP status code.
pub fn status_code_text(status: u16) -> (r: String)
    ensures
        r@ == decimal_text(status as nat),
    decreases status,
{
    if status < 10 {
        digit_str(status).to_owned()
    } else {
        let high = status_code_text(status / 10);
        let r = high.concat(digit_str(status % 10));
        assert(r@ =~= decimal_text(status as nat));
        r
    }
}

/// Tells whether an HTTP status code means success (the 2xx range).
pub fn is_success(status: u16) -> (r: bool)
    ensures
        r == (200 <= status <= 299),
{
    200 <= status && status <= 299
}

/// The endpoint that creates responses, under a base URL.
pub fn responses_url(base_url: &str) -> (r: String)
    ensures
        r@ == base_url@ + "/responses"@,
{
    base_url.to_owned().concat("/responses")
}

/// The value of the authorization header for an API key.
pub fn bearer(api_key: &str) -> (r: String)
    ensures
        r@ == "Bearer "@ + api_key@,
{
    "Bearer ".to_owned().concat(api_key)
}

/// The error for a refused request: the status code as text, and the answer verbatim.
pub fn api_error(status: u16, body: String) -> (r: ClientError)
    ensures
        r matches ClientError::ApiError { code, message } && code@ == decimal_text(status as nat)
            && message == body,
{
    ClientError::ApiError { code: status_code_text(status), message: body }
}

/// The response an HTTP answer holds.
///
/// A status outside the 2xx range gives `ApiError` with the status and the body
/// verbatim, and the body is not read. Otherwise the body is read as a response.
pub fn response_from_http(status: u16, body: String) -> (r: Result<ResponseResource, ClientError>)
    ensures
        !(200 <= status <= 299) ==> (r matches Err(ClientError::ApiError { code, message })
            && code@ == decimal_text(status as nat) && message == body),
        200 <= status <= 299 ==> match parsed_json(body@) {
            None => r == Err::<ResponseResource, ClientError>(
                ClientError::JsonError(DecodeError::Syntax),
            ),
            Some(j) => match r {
                Ok(v) => ResponseResource::read(j) == Some(v.wire()),
                Err(ClientError::JsonError(_)) => ResponseResource::read(j) is None,
                Err(_) => false,
            },
        },
{
    if !is_success(status) {
        return Err(api_error(status, body));
    }
    match decode_text::<ResponseResource>(body.as_str()) {
        Ok(v) => Ok(v),
        Err(e) => Err(ClientError::JsonError(e)),
    }
}

/// The body of an HTTP answer, where its status means success; otherwise `ApiError`
/// with the status and the body verbatim.
pub fn raw_from_http(status: u16, body: String) -> (r: Result<String, ClientError>)
    ensures
        200 <= status <= 299 ==> r == Ok::<String, ClientError>(body),
        !(200 <= status <= 299) ==> (r matches Err(ClientError::ApiError { code, message })
            && code@ == decimal_text(status as nat) && message == body),
{
    if is_success(status) {
        Ok(body)
    } else {
        Err(api_error(status, body))
    }
}

/// A request body that asks for a streamed response, whatever it asked before.
pub fn streaming_request(request: CreateResponseBody) -> (r: CreateResponseBody)
    ensures
        r == (CreateResponseBody { stream: Some(true), ..request }),
{
    CreateResponseBody { stream: Some(true), ..request }
}

/// The base URL used where none is set.
pub const DEFAULT_BASE_URL: &'static str = "https://api.openai.com";

/// A URL without one trailing `/`.
pub open spec fn without_trailing_slash(s: Seq<char>) -> Seq<char> {
    if s.len() > 0 && s.last() == '/' {
        s.drop_last()
    } else {
        s
    }
}

/// Tells whether a URL ends in the version segment `/v1`.
pub open spec fn ends_with_version(s: Seq<char>) -> bool {
    s.len() >= 3 && s.subrange(s.len() - 3, s.len() as int) == "/v1"@
}

/// A base URL as requests are sent under it: one trailing `/` dropped, and `/v1`
/// added unless the URL already ends in it.
pub open spec fn normalized_base_url(s: Seq<char>) -> Seq<char> {
    let t = without_trailing_slash(s);
    if ends_with_version(t) {
        t
    } else {
        t + "/v1"@
    }
}

/// Brings a base URL into the form requests are sent under.
pub fn normalize_base_url(base_url: &str) -> (r: String)
    ensures
        r@ == normalized_base_url(base_url@),
{
    proof {
        reveal_strlit("/v1");
    }
    let n = base_url.unicode_len();
    let t = if n > 0 && base_url.get_char(n - 1) == '/' {
        base_url.substring_char(0, n - 1)
    } else {
        base_url.substring_char(0, n)
    };
    assert(t@ =~= without_trailing_slash(base_url@));
    let m = t.unicode_len();
    let ends = m >= 3 && t.get_char(m - 3) == '/' && t.get_char(m - 2) == 'v' && t.get_char(m - 1) == '1';
    if ends {
        assert(t@.subrange(m - 3, m as int) =~= "/v1"@);
        t.to_owned()
    } else {
        assert(!ends_with_version(t@)) by {
            if ends_with_version(t@) {
                assert(t@.subrange(m - 3, m as int)[0] == t@[m - 3]);
                assert(t@.subrange(m - 3, m as int)[1] == t@[m - 2]);
                assert(t@.subrange(m - 3, m as int)[2] == t@[m - 1]);
            }
        }
        t.to_owned().concat("/v1")
    }
}

/// The settings a client for whole responses is built from.
#[derive(Debug, Clone)]
pub struct ClientBuilder {
    api_key: String,
    base_url: Option<String>,
}

impl ClientBuilder {
    pub closed spec fn spec_api_key(&self) -> String {
        self.api_key
    }

    pub closed spec fn spec_base_url(&self) -> Option<String> {
        self.base_url
    }

    /// Settings with an API key and the default base URL.
    pub fn new(api_key: &str) -> (r: Self)
        ensures
            r.spec_api_key()@ == api_key@,
            r.spec_base_url() is None,
    {
        ClientBuilder { api_key: api_key.to_owned(), base_url: None }
    }

    /// The same settings with another base URL.
    pub fn base_url(self, base_url: &str) -> (r: Self)
        ensures
            r.spec_api_key() == self.spec_api_key(),
            r.spec_base_url() is Some,
            r.spec_base_url()->0@ == base_url@,
    {
        ClientBuilder { api_key: self.api_key, base_url: Some(base_url.to_owned()) }
    }

    /// The base URL requests are sent under: the one set, or the default, normalized.
    pub fn resolved_base_url(&self) -> (r: String)
        ensures
            r@ == normalized_base_url(
                match self.spec_base_url() {
                    Some(u) => u@,
                    None => DEFAULT_BASE_URL@,
                },
            ),
    {
        match &self.base_url {
            Some(u) => normalize_base_url(u.as_str()),
            None => normalize_base_url(DEFAULT_BASE_URL),
        }
    }

    /// The API key.
    pub fn api_key(&self) -> (r: &String)
        ensures
            *r == self.spec_api_key(),
    {
        &self.api_key
    }

    /// The base URL that was set, if one was.
    pub fn configured_base_url(&self) -> (r: &Option<String>)
        ensures
            *r == self.spec_base_url(),
    {
        &self.base_url
    }
}

/// The settings a client for streamed responses is built from.
#[derive(Debug, Clone)]
pub struct StreamingClientBuilder {
    api_key: String,
    base_url: Option<String>,
}

impl StreamingClientBuilder {
    pub closed spec fn spec_api_key(&self) -> String {
        self.api_key
    }

    pub closed spec fn spec_base_url(&self) -> Option<String> {
        self.base_url
    }

    /// Settings with an API key and the default base URL.
    pub fn new(api_key: &str) -> (r: Self)
        ensures
            r.spec_api_key()@ == api_key@,
            r.spec_base_url() is None,
    {
        StreamingClientBuilder { api_key: api_key.to_owned(), base_url: None }
    }

    /// The same settings with another base URL.
    pub fn base_url(self, base_url: &str) -> (r: Self)
        ensures
            r.spec_api_key() == self.spec_api_key(),
            r.spec_base_url() is Some,
            r.spec_base_url()->0@ == base_url@,
    {
        StreamingClientBuilder { api_key: self.api_key, base_url: Some(base_url.to_owned()) }
    }

    /// The base URL requests are sent under: the one set, or the default, normalized.
    pub fn resolved_base_url(&self) -> (r: String)
        ensures
            r@ == normalized_base_url(
                match self.spec_base_url() {
                    Some(u) => u@,
                    None => DEFAULT_BASE_URL@,
                },
            ),
    {
        match &self.base_url {
            Some(u) => normalize_base_url(u.as_str()),
            None => normalize_base_url(DEFAULT_BASE_URL),
        }
    }

    /// The API key.
    pub fn api_key(&self) -> (r: &String)
        ensures
            *r == self.spec_api_key(),
    {
        &self.api_key
    }

    /// The base URL that was set, if one was.
    pub fn configured_base_url(&self) -> (r: &Option<String>)
        ensures
            *r == self.spec_base_url(),
    {
        &self.base_url
    }
}

} // verus!
