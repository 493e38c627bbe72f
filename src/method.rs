//! Dispatch of a request's method string onto the supported HTTP verbs.

use vstd::prelude::*;

verus! {

/// The HTTP verbs the bridge can send.
#[derive(Clone, Copy, Debug, PartialEq, Eq, Structural)]
pub enum HttpMethod {
    Get,
    Post,
    Put,
    Delete,
    Patch,
}

/// The verb whose upper-case name is exactly `s`, if any.
pub open spec fn method_named(s: Seq<char>) -> Option<HttpMethod> {
    if s == "GET"@ {
        Some(HttpMethod::Get)
    } else if s == "POST"@ {
        Some(HttpMethod::Post)
    } else if s == "PUT"@ {
        Some(HttpMethod::Put)
    } else if s == "DELETE"@ {
        Some(HttpMethod::Delete)
    } else if s == "PATCH"@ {
        Some(HttpMethod::Patch)
    } else {
        None
    }
}

/// The upper-case form of a text, as Unicode defines it.
pub uninterp spec fn upper_of(s: Seq<char>) -> Seq<char>;

/// Relies on `str::to_uppercase`: the result depends on the characters alone.
#[verifier::external_body]
fn uppercase(s: &str) -> (r: String)
    ensures
        r@ == upper_of(s@),
{
    s.to_uppercase()
}

/// Whether two texts hold the same characters.
pub fn same_text(a: &str, b: &str) -> (r: bool)
    ensures
        r == (a@ == b@),
{
    let x = String::from_str(a);
    let y = String::from_str(b);
    x.eq(&y)
}

/// Maps an already upper-cased method name onto its verb.
pub fn method_from_upper(u: &str) -> (r: Option<HttpMethod>)
    ensures
        r == method_named(u@),
{
    if same_text(u, "GET") {
        Some(HttpMethod::Get)
    } else if same_text(u, "POST") {
        Some(HttpMethod::Post)
    } else if same_text(u, "PUT") {
        Some(HttpMethod::Put)
    } else if same_text(u, "DELETE") {
        Some(HttpMethod::Delete)
    } else if same_text(u, "PATCH") {
        Some(HttpMethod::Patch)
    } else {
        None
    }
}

/// Maps a method name, in any letter case, onto its verb.
pub fn parse_method(s: &str) -> (r: Option<HttpMethod>)
    ensures
        r == method_named(upper_of(s@)),
{
    let u = uppercase(s);
    method_from_upper(u.as_str())
}

} // verus!
