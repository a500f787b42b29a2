use std::collections::HashMap;
use vstd::prelude::*;
use vstd::string::StringExecFns;

verus! {

/// Client-level defaults: the URL prefix every request starts from, a
/// timeout in milliseconds, and default header lines.
///
/// The timeout is stored but never wired into the dispatch of a request;
/// whatever the transport does by default applies.
pub struct RuxiosConfig {
    pub base_url: String,
    pub timeout: u32,
    pub headers: Vec<String>,
}

impl Default for RuxiosConfig {
    /// An empty base URL, a ten-second timeout and no default headers.
    fn default() -> (r: Self)
        ensures
            r.base_url@ == Seq::<char>::empty(),
            r.timeout == 10000,
            r.headers@ == Seq::<String>::empty(),
    {
        RuxiosConfig { base_url: String::new(), timeout: 10000, headers: Vec::new() }
    }
}

impl RuxiosConfig {
    pub fn new() -> (r: Self)
        ensures
            r.base_url@ == Seq::<char>::empty(),
            r.timeout == 10000,
            r.headers@ == Seq::<String>::empty(),
    {
        Self::default()
    }
}

/// Per-request settings: the URL part appended verbatim to the base URL,
/// an optional method name (absent means "GET"), and optional headers.
pub struct RuxiosRequestConfig {
    pub url: String,
    pub method: Option<String>,
    pub headers: Option<HashMap<String, String>>,
}

impl RuxiosRequestConfig {
    /// The configuration a verb shortcut dispatches: the given URL, the
    /// given fixed method name, and no extra headers.
    pub fn shortcut(url: &str, method: &str) -> (r: Self)
        ensures
            r.url@ == url@,
            r.method matches Some(m) && m@ == method@,
            r.headers is None,
    {
        RuxiosRequestConfig {
            url: String::from_str(url),
            method: Some(String::from_str(method)),
            headers: None,
        }
    }
}

impl Default for RuxiosRequestConfig {
    /// An empty URL, the method "GET", and no extra headers.
    fn default() -> (r: Self)
        ensures
            r.url@ == Seq::<char>::empty(),
            r.method matches Some(m) && m@ == "GET"@,
            r.headers is None,
    {
        RuxiosRequestConfig {
            url: String::new(),
            method: Some(String::from_str("GET")),
            headers: None,
        }
    }
}

} // verus!
