//! Client library for delivering operational alerts and change-management
//! records to the BigPanda monitoring platform over authenticated HTTPS.
//!
//! The library builds the JSON payloads and the full request description
//! (method, URL, headers, body) and classifies response status codes; the
//! caller performs the actual network exchange and hands the outcome back.

pub mod alert;
pub mod change;
pub mod json;

use crate::json::{append_u64, dec_nat};
use vstd::prelude::*;
use vstd::string::StringExecFns;

verus! {

/// Which of the two remote endpoints (and header rules) a `Client` is bound to.
#[derive(Clone, Copy, Debug, PartialEq, Eq, Structural)]
pub enum ApiType {
    Alert,
    Change,
}

/// The HTTP methods the transport understands. Every current sender uses
/// `Post`; the others are kept for future endpoints.
#[derive(Clone, Copy, Debug, PartialEq, Eq, Structural)]
pub enum HttpMethod {
    Get,
    Post,
    Put,
}

/// The wire name of an HTTP method.
pub open spec fn method_token(m: HttpMethod) -> Seq<char> {
    match m {
        HttpMethod::Get => "GET"@,
        HttpMethod::Post => "POST"@,
        HttpMethod::Put => "PUT"@,
    }
}

impl HttpMethod {
    /// The exec wire name of the method.
    pub fn as_str(self) -> (r: &'static str)
        ensures
            r@ == method_token(self),
    {
        match self {
            HttpMethod::Get => "GET",
            HttpMethod::Post => "POST",
            HttpMethod::Put => "PUT",
        }
    }
}

/// The two failure kinds surfaced to callers: the exchange could not be
/// completed (carrying a description of the transport failure), or the remote
/// service answered with a status code outside the accepted set (carrying
/// that exact code).
#[derive(Debug)]
pub enum BigPandaError {
    NetworkError(String),
    HTTPError(u16),
}

/// The human-readable text of an error.
pub open spec fn error_text(e: BigPandaError) -> Seq<char> {
    match e {
        BigPandaError::NetworkError(s) => s@,
        BigPandaError::HTTPError(code) => "Invalid status code: "@ + dec_nat(code as nat),
    }
}

impl BigPandaError {
    /// Renders the error as text: the transport failure's own description, or
    /// `Invalid status code: <code>`.
    pub fn message(&self) -> (r: String)
        ensures
            r@ == error_text(*self),
    {
        match self {
            BigPandaError::NetworkError(s) => s.clone(),
            BigPandaError::HTTPError(code) => {
                let mut out = "Invalid status code: ".to_owned();
                append_u64(&mut out, *code as u64);
                out
            },
        }
    }
}

/// Classifies an HTTP response status code: 200, 201 and 204 mean the remote
/// service acknowledged receipt; any other code is a failure carrying that code.
pub fn classify_status(status: u16) -> (r: Result<(), BigPandaError>)
    ensures
        r is Ok <==> (status == 200 || status == 201 || status == 204),
        r is Err ==> r == Err::<(), BigPandaError>(BigPandaError::HTTPError(status)),
{
    if status == 200 || status == 201 || status == 204 {
        Ok(())
    } else {
        Err(BigPandaError::HTTPError(status))
    }
}

/// The endpoint for alert payloads.
pub fn alert_url() -> (r: &'static str)
    ensures
        r@ == "https://api.bigpanda.io/data/v2/alerts"@,
{
    "https://api.bigpanda.io/data/v2/alerts"
}

/// The endpoint for change payloads.
pub fn change_url() -> (r: &'static str)
    ensures
        r@ == "https://api.bigpanda.io/data/changes"@,
{
    "https://api.bigpanda.io/data/changes"
}

/// A fully described HTTP request, ready to be dispatched: the one action the
/// transport asks of its caller.
pub struct HttpRequest {
    pub method: HttpMethod,
    pub url: String,
    pub headers: Vec<(String, String)>,
    pub body: String,
}

/// The mathematical content of a `Client`.
pub struct ClientView {
    pub api_type: ApiType,
    pub app_key: Seq<char>,
    pub auth_token: Seq<char>,
    pub auth_header: Seq<char>,
}

/// One configured connection context to the remote platform, bound to exactly
/// one api target for its entire lifetime. The bearer-authentication header
/// value is pre-encoded at construction and reused for every request.
pub struct Client {
    api_type: ApiType,
    app_key: String,
    auth_token: String,
    auth_header: String,
}

impl View for Client {
    type V = ClientView;

    closed spec fn view(&self) -> ClientView {
        ClientView {
            api_type: self.api_type,
            app_key: self.app_key@,
            auth_token: self.auth_token@,
            auth_header: self.auth_header@,
        }
    }
}

/// The header list every request of this client carries: `Content-Type:
/// application/json` first, the bearer-authentication header second, and,
/// exactly when the client is bound to the Change target, `x-bp-app-key`
/// with the configured application key third — and no other headers.
pub open spec fn request_headers_ok(c: ClientView, hs: Seq<(String, String)>) -> bool {
    &&& hs.len() == if c.api_type is Change {
        3int
    } else {
        2int
    }
    &&& hs[0].0@ == "Content-Type"@
    &&& hs[0].1@ == "application/json"@
    &&& hs[1].0@ == "Authorization"@
    &&& hs[1].1@ == c.auth_header
    &&& (c.api_type is Change ==> hs[2].0@ == "x-bp-app-key"@ && hs[2].1@ == c.app_key)
    &&& (forall|i: int| 0 <= i < hs.len() && (#[trigger] hs[i].0)@ == "x-bp-app-key"@
        ==> c.api_type is Change)
}

impl Client {
    /// The pre-encoded bearer header value matches the stored token.
    pub open spec fn wf(&self) -> bool {
        self@.auth_header == "Bearer "@ + self@.auth_token
    }

    /// Constructs a client bound to one api target, holding the credentials
    /// and the pre-encoded bearer-authentication header value.
    pub fn new(api_type: ApiType, app_key: &str, auth_token: &str) -> (c: Client)
        ensures
            c@.api_type == api_type,
            c@.app_key == app_key@,
            c@.auth_token == auth_token@,
            c.wf(),
    {
        let mut auth_header = "Bearer ".to_owned();
        auth_header.append(auth_token);
        Client {
            api_type,
            app_key: app_key.to_owned(),
            auth_token: auth_token.to_owned(),
            auth_header,
        }
    }

    /// Builds the request for this client: the given method, URL and body,
    /// under the client's header rules. The `x-bp-app-key` header is sent if
    /// and only if the client is bound to the Change target.
    pub fn build_request(&self, method: HttpMethod, url: &str, body: String) -> (r: HttpRequest)
        ensures
            r.method == method,
            r.url@ == url@,
            r.body@ == body@,
            request_headers_ok(self@, r.headers@),
            self.wf() ==> r.headers@[1].1@ == "Bearer "@ + self@.auth_token,
    {
        let mut headers: Vec<(String, String)> = Vec::new();
        headers.push(("Content-Type".to_owned(), "application/json".to_owned()));
        headers.push(("Authorization".to_owned(), self.auth_header.clone()));
        if matches!(self.api_type, ApiType::Change) {
            headers.push(("x-bp-app-key".to_owned(), self.app_key.clone()));
        }
        proof {
            reveal_strlit("Content-Type");
            reveal_strlit("Authorization");
            reveal_strlit("x-bp-app-key");
            assert("Content-Type"@.len() == 12);
            assert("Authorization"@.len() == 13);
            assert("x-bp-app-key"@.len() == 12);
            assert("Content-Type"@[0] == 'C');
            assert("x-bp-app-key"@[0] == 'x');
            assert forall|i: int|
                0 <= i < headers@.len() && (#[trigger] headers@[i].0)@ == "x-bp-app-key"@
                    implies self@.api_type is Change by {
                if !(self@.api_type is Change) {
                    assert(i == 0 || i == 1);
                }
            }
        }
        HttpRequest { method, url: url.to_owned(), headers, body }
    }
}

} // verus!
