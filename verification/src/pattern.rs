//! The compiled domain filter: a regular expression, applied unanchored to
//! the server name of each decoded record.
//!
//! The expression engine is the `regex` crate; the library states its
//! behaviour through named results and proves everything downstream of the
//! match verdict.

use vstd::prelude::*;
use crate::errors::ConfigError;

verus! {

#[verifier::external_type_specification]
#[verifier::external_body]
pub struct ExRegex(regex::bytes::Regex);

#[verifier::external_type_specification]
#[verifier::external_body]
pub struct ExRegexError(regex::Error);

/// Whether `regex::bytes::Regex::new` accepts the pattern text; compilation
/// succeeds or fails on the pattern alone.
pub uninterp spec fn pattern_compiles(pat: Seq<char>) -> bool;

/// The pattern text a compiled expression was built from, as
/// `regex::bytes::Regex::as_str` reports it.
pub uninterp spec fn regex_source(re: regex::bytes::Regex) -> Seq<char>;

/// Whether the expression compiled from `pat` matches anywhere in `hay`;
/// `regex::bytes::Regex::is_match` depends on the pattern and the haystack
/// alone.
pub uninterp spec fn regex_matches(pat: Seq<char>, hay: Seq<u8>) -> bool;

/// Relies on `regex::bytes::Regex::new`: it returns `Ok` exactly for the
/// pattern texts it accepts, and the compiled value keeps its pattern text.
#[verifier::external_body]
fn compile_pattern(pat: &str) -> (r: Result<regex::bytes::Regex, regex::Error>)
    ensures
        r is Ok <==> pattern_compiles(pat@),
        r matches Ok(re) ==> regex_source(re) == pat@,
{
    regex::bytes::Regex::new(pat)
}

/// Relies on `regex::bytes::Regex::is_match`: true if and only if the
/// expression matches anywhere in the haystack, a function of the pattern
/// and the haystack alone.
#[verifier::external_body]
fn regex_is_match(re: &regex::bytes::Regex, hay: &[u8]) -> (r: bool)
    ensures
        r == regex_matches(regex_source(*re), hay@),
{
    re.is_match(hay)
}

/// A compiled domain filter pattern. Its view is the pattern text.
pub struct DomainPattern {
    re: regex::bytes::Regex,
}

impl View for DomainPattern {
    type V = Seq<char>;

    closed spec fn view(&self) -> Seq<char> {
        regex_source(self.re)
    }
}

impl DomainPattern {
    /// Compiles the domain filter; an unacceptable pattern text is the
    /// fatal `InvalidPattern` error.
    pub fn new(pat: &str) -> (r: Result<DomainPattern, ConfigError>)
        ensures
            r is Ok <==> pattern_compiles(pat@),
            r matches Ok(p) ==> p@ == pat@,
            r matches Err(e) ==> e == ConfigError::InvalidPattern,
    {
        match compile_pattern(pat) {
            Ok(re) => Ok(DomainPattern { re }),
            Err(_) => Err(ConfigError::InvalidPattern),
        }
    }

    /// Applies the filter to a server name, unanchored, exactly as the
    /// pattern was supplied.
    pub fn is_match(&self, hay: &[u8]) -> (r: bool)
        ensures
            r == regex_matches(self@, hay@),
    {
        regex_is_match(&self.re, hay)
    }
}

} // verus!
