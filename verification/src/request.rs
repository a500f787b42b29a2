use vstd::prelude::*;
use vstd::string::StringExecFns;
use crate::http_method::HttpMethod;

verus! {

/// What `str::to_uppercase` returns on `s`: its Unicode upper-case form.
/// The result depends on the characters of `s` alone.
pub uninterp spec fn upper_of(s: Seq<char>) -> Seq<char>;

/// The upper-case form of one ASCII character; any other character is
/// left as it is.
pub open spec fn ascii_upper_char(c: char) -> char {
    if 'a' <= c && c <= 'z' {
        (((c as u32) - 32) as u32) as char
    } else {
        c
    }
}

/// Whether every character of `s` is plain ASCII.
pub open spec fn is_ascii_seq(s: Seq<char>) -> bool {
    forall|i: int| 0 <= i < s.len() ==> (#[trigger] s[i] as u32) < 128
}

/// `s` upper-cased character by character, the ASCII way.
pub open spec fn ascii_upper_seq(s: Seq<char>) -> Seq<char> {
    s.map_values(|c: char| ascii_upper_char(c))
}

/// Relies on `str::to_uppercase`: the result is a function of the
/// characters of `s` alone; upper-casing is idempotent (the result is
/// already in upper case, so upper-casing it again changes nothing);
/// and on ASCII input it is plain per-character ASCII upper-casing
/// (Unicode case mapping sends each ASCII letter to its ASCII
/// upper-case form and moves no other ASCII character).
#[verifier::external_body]
fn uppercase(s: &str) -> (r: String)
    ensures
        r@ == upper_of(s@),
        upper_of(r@) == r@,
        is_ascii_seq(s@) ==> r@ == ascii_upper_seq(s@),
{
    s.to_uppercase()
}

/// The verb that an upper-case method name denotes. Any name but the nine
/// standard ones means GET: unrecognized input falls back, it is never
/// rejected.
pub open spec fn spec_method_of(u: Seq<char>) -> HttpMethod {
    if u == "GET"@ {
        HttpMethod::GET
    } else if u == "POST"@ {
        HttpMethod::POST
    } else if u == "PUT"@ {
        HttpMethod::PUT
    } else if u == "DELETE"@ {
        HttpMethod::DELETE
    } else if u == "HEAD"@ {
        HttpMethod::HEAD
    } else if u == "OPTIONS"@ {
        HttpMethod::OPTIONS
    } else if u == "CONNECT"@ {
        HttpMethod::CONNECT
    } else if u == "PATCH"@ {
        HttpMethod::PATCH
    } else if u == "TRACE"@ {
        HttpMethod::TRACE
    } else {
        HttpMethod::GET
    }
}

/// Picks the verb that an already upper-cased method name denotes,
/// falling back to GET for anything unrecognized.
pub fn method_from_upper(upper: &str) -> (m: HttpMethod)
    ensures
        m == spec_method_of(upper@),
{
    let u = String::from_str(upper);
    if u == String::from_str("GET") {
        HttpMethod::GET
    } else if u == String::from_str("POST") {
        HttpMethod::POST
    } else if u == String::from_str("PUT") {
        HttpMethod::PUT
    } else if u == String::from_str("DELETE") {
        HttpMethod::DELETE
    } else if u == String::from_str("HEAD") {
        HttpMethod::HEAD
    } else if u == String::from_str("OPTIONS") {
        HttpMethod::OPTIONS
    } else if u == String::from_str("CONNECT") {
        HttpMethod::CONNECT
    } else if u == String::from_str("PATCH") {
        HttpMethod::PATCH
    } else if u == String::from_str("TRACE") {
        HttpMethod::TRACE
    } else {
        HttpMethod::GET
    }
}

/// Maps a method name, case-insensitively, to its verb: the name is
/// upper-cased and matched against the nine standard verb names, and
/// anything unrecognized resolves to GET. For ASCII names — every
/// standard spelling is one — the upper-casing is pinned down exactly,
/// so the mapping is, too.
pub fn string_to_method(method: &str) -> (m: HttpMethod)
    ensures
        m == spec_method_of(upper_of(method@)),
        is_ascii_seq(method@) ==> m == spec_method_of(ascii_upper_seq(method@)),
{
    let upper = uppercase(method);
    method_from_upper(upper.as_str())
}

/// The mapping is invariant under case changes of its input, for every
/// string: a name and its upper-cased form resolve the same verb,
/// because upper-casing twice changes nothing. Returned as the pair of
/// the two resolutions, proved equal.
pub fn method_mapping_is_case_invariant(method: &str) -> (r: (HttpMethod, HttpMethod))
    ensures
        r.0 == r.1,
        r.0 == spec_method_of(upper_of(method@)),
{
    let upper = uppercase(method);
    let direct = string_to_method(method);
    let via_upper = string_to_method(upper.as_str());
    (direct, via_upper)
}

} // verus!
