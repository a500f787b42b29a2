use std::collections::HashMap;
use vstd::prelude::*;
use vstd::string::StringExecFns;
use crate::config::{RuxiosConfig, RuxiosRequestConfig};
use crate::error::{RuxiosError, RuxiosErrorValue};
use crate::http_method::HttpMethod;
use crate::json::{encode_json, from_value_as, json_doc_of, json_text_of, json_valid, parse_json};
use crate::request::{ascii_upper_seq, is_ascii_seq, spec_method_of, string_to_method, upper_of};

verus! {

/// Declares reqwest's client handle. The library holds one per facade
/// and hands it out; every exchange over it happens outside the library.
#[verifier::external_type_specification]
#[verifier::external_body]
pub struct ExClient(reqwest::Client);

/// Relies on `reqwest::Client::new`: a fresh client handle with the
/// transport's default settings. Nothing is stated of it: the library
/// never looks inside the handle. The transport documents that this
/// panics only when it cannot set itself up at all.
#[verifier::external_body]
fn new_client() -> (c: reqwest::Client) {
    reqwest::Client::new()
}

/// The client facade: one transport handle and the configuration every
/// request through it starts from. The handle is held here and handed
/// out; every exchange over it happens outside the library.
pub struct Ruxios {
    pub client: reqwest::Client,
    pub config: RuxiosConfig,
}

/// The response envelope: the status the server answered with and the
/// decoded body.
pub struct RuxiosResponse<T> {
    pub status: u16,
    pub data: T,
}

impl<T> RuxiosResponse<T> {
    /// Whether the status is a success, that is, lies in [200, 300).
    pub fn ok(&self) -> (r: bool)
        ensures
            r == (200 <= self.status < 300),
    {
        self.status >= 200 && self.status < 300
    }
}

impl RuxiosResponse<serde_json::Value> {
    /// Re-reads the held document as a `T`. This works because the body
    /// is kept as a self-describing document; whether the shapes fit is
    /// the deserializer's decision, surfaced unchanged.
    pub fn json<T: serde::de::DeserializeOwned>(&self) -> Result<T, serde_json::Error> {
        from_value_as(self.data.clone())
    }

    /// Like `json`, but consumes the envelope, handing the deserializer
    /// the held document itself rather than a copy.
    pub fn try_convert<T: serde::de::DeserializeOwned>(self) -> Result<T, serde_json::Error> {
        from_value_as(self.data)
    }
}

/// The method name a request asks for: the one it names, or "GET" when
/// it names none.
pub open spec fn requested_method_name(m: Option<String>) -> Seq<char> {
    match m {
        Some(s) => s@,
        None => "GET"@,
    }
}

/// Everything about one outbound exchange that is settled before the
/// transport is involved: the full URL, the verb, the fixed identifying
/// header, the extra headers, and the encoded body, if any.
pub struct PreparedRequest {
    pub url: String,
    pub method: HttpMethod,
    pub user_agent: String,
    pub headers: Option<HashMap<String, String>>,
    pub body: Option<String>,
}

/// The full URL of a request: the base with the per-request part
/// appended verbatim — no separator is inserted and nothing is
/// normalized, so the caller supplies the slashes.
pub fn full_url(base: &str, url: &str) -> (r: String)
    ensures
        r@ == base@ + url@,
{
    let mut r = String::from_str(base);
    r.append(url);
    r
}

impl Ruxios {
    /// A facade with the default configuration.
    pub fn new() -> (r: Self)
        ensures
            r.config.base_url@ == Seq::<char>::empty(),
            r.config.timeout == 10000,
            r.config.headers@ == Seq::<String>::empty(),
    {
        Self::default()
    }

    /// Settles one request up to the exchange itself: concatenates the
    /// base URL and the request URL literally, resolves the verb from
    /// the method name (or "GET" when none is given), fixes the
    /// identifying header, and passes headers and encoded body through
    /// untouched.
    pub fn prepare_request(&self, cfg: RuxiosRequestConfig, body: Option<String>) -> (r:
        PreparedRequest)
        ensures
            r.url@ == self.config.base_url@ + cfg.url@,
            r.method == spec_method_of(upper_of(requested_method_name(cfg.method))),
            is_ascii_seq(requested_method_name(cfg.method)) ==> r.method == spec_method_of(
                ascii_upper_seq(requested_method_name(cfg.method)),
            ),
            r.user_agent@ == "Ruxios"@,
            r.headers == cfg.headers,
            r.body == body,
    {
        let url = full_url(self.config.base_url.as_str(), cfg.url.as_str());
        let method = match cfg.method {
            Some(m) => string_to_method(m.as_str()),
            None => {
                proof {
                    reveal_strlit("GET");
                }
                string_to_method("GET")
            },
        };
        PreparedRequest {
            url,
            method,
            user_agent: String::from_str("Ruxios"),
            headers: cfg.headers,
            body,
        }
    }
}

impl From<RuxiosConfig> for Ruxios {
    /// A facade with the given configuration and a fresh transport
    /// handle.
    fn from(config: RuxiosConfig) -> (r: Ruxios)
        ensures
            r.config == config,
    {
        Ruxios { client: new_client(), config }
    }
}

impl vstd::std_specs::convert::FromSpecImpl<RuxiosConfig> for Ruxios {
    open spec fn obeys_from_spec() -> bool {
        false
    }

    open spec fn from_spec(config: RuxiosConfig) -> Ruxios {
        arbitrary()
    }
}

impl Default for Ruxios {
    /// A facade with the default configuration and a fresh transport
    /// handle.
    fn default() -> (r: Self)
        ensures
            r.config.base_url@ == Seq::<char>::empty(),
            r.config.timeout == 10000,
            r.config.headers@ == Seq::<String>::empty(),
    {
        Ruxios { client: new_client(), config: RuxiosConfig::new() }
    }
}

/// Encodes a document as a request body, the way a supplied body is
/// serialized before dispatch. Encoding a document value always
/// succeeds; the `Result` shape is kept because the dispatch step it
/// mirrors serializes caller-chosen body types, which can fail.
pub fn encode_body(v: &serde_json::Value) -> (r: Result<String, RuxiosError<serde_json::Value>>)
    ensures
        r matches Ok(s) && s@ == json_text_of(*v) && (json_valid(s@) ==> json_doc_of(s@)
            == *v),
{
    match encode_json(v) {
        Ok(s) => Ok(s),
        Err(e) => Err(RuxiosError::SerdeError(e)),
    }
}

/// Turns what came back from the transport — the numeric status and the
/// body text — into the envelope or the error the caller sees:
///
/// - a success status with a decodable body is the envelope;
/// - a success status with an undecodable body is a decode error;
/// - any other status with a decodable body is a MethodError carrying
///   that exact status and the decoded body;
/// - any other status with an undecodable body is a decode error too, and
///   the status is lost in that branch.
pub fn handle_response(status: u16, body: &str) -> (r: Result<
    RuxiosResponse<serde_json::Value>,
    RuxiosError<serde_json::Value>,
>)
    ensures
        200 <= status < 300 && json_valid(body@) ==> (r matches Ok(env) && env.status == status
            && env.data == json_doc_of(body@)),
        200 <= status < 300 && !json_valid(body@) ==> (r matches Err(e) && e is SerdeError),
        !(200 <= status < 300) && json_valid(body@) ==> (r matches Err(e) && e matches
            RuxiosError::MethodError(ev) && ev.status == status && ev.value == json_doc_of(body@)),
        !(200 <= status < 300) && !json_valid(body@) ==> (r matches Err(e) && e is SerdeError),
{
    if 200 <= status && status < 300 {
        match parse_json(body) {
            Ok(v) => Ok(RuxiosResponse { status, data: v }),
            Err(e) => Err(RuxiosError::SerdeError(e)),
        }
    } else {
        match parse_json(body) {
            Ok(v) => Err(RuxiosError::MethodError(RuxiosErrorValue { status, value: v })),
            Err(e) => Err(RuxiosError::SerdeError(e)),
        }
    }
}

/// A transport that echoes an encoded body back cannot change it: the
/// body is encoded as a request body would be, the text is handled as a
/// success response, and the envelope holds the original document
/// again. The round trip is owed whenever the encoded text is a
/// readable document — which is everything but nesting beyond the
/// reader's depth limit.
pub fn echo_round_trip(v: &serde_json::Value) -> (r: Option<RuxiosResponse<serde_json::Value>>)
    ensures
        json_valid(json_text_of(*v)) ==> r is Some,
        r matches Some(env) ==> (env.status == 200 && env.data == *v),
{
    match encode_body(v) {
        Ok(s) => match handle_response(200, s.as_str()) {
            Ok(env) => Some(env),
            Err(_) => None,
        },
        Err(_) => None,
    }
}

} // verus!
