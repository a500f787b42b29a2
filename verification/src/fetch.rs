use std::collections::HashMap;
use vstd::prelude::*;
use vstd::string::StringExecFns;
use crate::config::RuxiosRequestConfig;
use crate::json::{json_doc_of, json_null};
use crate::ruxios::requested_method_name;

verus! {

/// The one-line request form: a URL and whatever else the caller cares
/// to give. Defaults cascade: a bare URL means a GET; naming a method
/// adds an empty header map; naming headers adds the null document as
/// the body.
pub struct Fetch {
    pub url: String,
    pub method: Option<String>,
    pub headers: Option<HashMap<String, String>>,
    pub body: Option<serde_json::Value>,
}

impl Fetch {
    /// Starts a shorthand request: only the URL is settled.
    pub fn new(url: &str) -> (r: Self)
        ensures
            r.url@ == url@,
            r.method is None,
            r.headers is None,
            r.body is None,
    {
        Fetch { url: String::from_str(url), method: None, headers: None, body: None }
    }

    /// Names the method.
    pub fn method(self, method: &str) -> (r: Self)
        ensures
            r.url == self.url,
            (r.method matches Some(m) && m@ == method@),
            r.headers == self.headers,
            r.body == self.body,
    {
        Fetch {
            url: self.url,
            method: Some(String::from_str(method)),
            headers: self.headers,
            body: self.body,
        }
    }

    /// Names the headers.
    pub fn headers(self, headers: HashMap<String, String>) -> (r: Self)
        ensures
            r.url == self.url,
            r.method == self.method,
            r.headers == Some(headers),
            r.body == self.body,
    {
        Fetch { url: self.url, method: self.method, headers: Some(headers), body: self.body }
    }

    /// Names the body.
    pub fn body(self, body: serde_json::Value) -> (r: Self)
        ensures
            r.url == self.url,
            r.method == self.method,
            r.headers == self.headers,
            r.body == Some(body),
    {
        Fetch { url: self.url, method: self.method, headers: self.headers, body: Some(body) }
    }

    /// Resolves the defaulting cascade into a request configuration and
    /// a body: an unnamed method becomes "GET", unnamed headers become
    /// the empty map, and an unnamed body becomes the null document.
    pub fn into_request(self) -> (r: (RuxiosRequestConfig, serde_json::Value))
        ensures
            r.0.url == self.url,
            (r.0.method matches Some(m) && m@ == requested_method_name(self.method)),
            self.headers is Some ==> r.0.headers == self.headers,
            self.headers is None ==> (r.0.headers matches Some(h) && h@ == Map::<
                String,
                String,
            >::empty()),
            self.body matches Some(b) ==> r.1 == b,
            self.body is None ==> r.1 == json_doc_of("null"@),
    {
        let method = match self.method {
            Some(m) => m,
            None => String::from_str("GET"),
        };
        let headers = match self.headers {
            Some(h) => h,
            None => HashMap::new(),
        };
        let body = match self.body {
            Some(b) => b,
            None => json_null(),
        };
        (RuxiosRequestConfig { url: self.url, method: Some(method), headers: Some(headers) }, body)
    }
}

} // verus!
