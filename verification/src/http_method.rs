use vstd::prelude::*;

verus! {

/// The HTTP verbs a request can carry.
///
/// `GET` is the default: every piece of the library that has to pick a
/// method without being told one picks `GET`.
#[derive(Debug, Clone, Copy, PartialEq, Eq, Structural)]
pub enum HttpMethod {
    GET,
    POST,
    PUT,
    DELETE,
    PATCH,
    HEAD,
    OPTIONS,
    CONNECT,
    TRACE,
}

impl Default for HttpMethod {
    fn default() -> (r: Self)
        ensures
            r == HttpMethod::GET,
    {
        HttpMethod::GET
    }
}

} // verus!
