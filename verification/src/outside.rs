//! Declarations the verifier takes on trust: the few places where the
//! library leans on std or on another crate for work it does not verify.

use vstd::prelude::*;

verus! {

/// Relies on `String::from_iter` over `core::str::Chars`: collecting
/// characters yields a string holding exactly those characters in order.
#[verifier::external_body]
pub fn chars_to_string(v: &Vec<char>) -> (r: String)
    ensures
        r@ == v@,
{
    v.iter().collect()
}

/// Relies on `char::from_u32`: it answers `Some` exactly on Unicode
/// scalar values — every code up to the last code point except the
/// surrogate range — and the character it answers carries that code.
pub assume_specification[ char::from_u32 ](i: u32) -> (r: Option<char>)
    ensures
        r matches Some(c) ==> c as u32 == i,
        r is Some <==> vstd::utf8::is_scalar(i),
;

#[verifier::external_type_specification]
#[verifier::external_body]
pub struct ExUrl(url::Url);

#[verifier::external_type_specification]
#[verifier::external_body]
pub struct ExParseError(url::ParseError);

/// Whether `url::Url::parse` accepts a string as an absolute URL. The
/// grammar it checks is the WHATWG URL standard, far too large to state
/// here; what matters to callers is that acceptance depends on the text
/// alone.
pub uninterp spec fn url_accepted(s: Seq<char>) -> bool;

/// Relies on `url::Url::parse`: it returns `Ok` exactly when the input
/// text parses as an absolute URL, and that outcome is a function of the
/// input text alone.
#[verifier::external_body]
pub fn parse_url(s: &str) -> (r: Result<url::Url, url::ParseError>)
    ensures
        r is Ok <==> url_accepted(s@),
{
    url::Url::parse(s)
}

} // verus!
