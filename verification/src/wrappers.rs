//! The calls into code that is not verified here. Each function in this
//! file is believed on its contract; its doc comment says what is claimed.

use vstd::prelude::*;
use crate::text::decimal_u16;

verus! {

/// The text of the error with which `regex::Regex::new` refuses `pattern`,
/// or `None` where the pattern compiles.
pub uninterp spec fn regex_compile_error(pattern: Seq<char>) -> Option<Seq<char>>;

/// Whether the regular expression compiled from `pattern` matches anywhere
/// in `text`: what `regex::Regex::is_match` returns.
pub uninterp spec fn regex_is_match(pattern: Seq<char>, text: Seq<char>) -> bool;

/// The standard base64 encoding, with padding, of `bytes`: what
/// `base64::encode` returns.
pub uninterp spec fn base64_text(bytes: Seq<u8>) -> Seq<char>;

/// The text of the error with which `str::parse::<u16>` refuses `text`.
pub uninterp spec fn u16_parse_error(text: Seq<char>) -> Seq<char>;

/// Compiles `pattern` with `regex::Regex::new` and searches `text` with
/// `regex::Regex::is_match`.
///
/// Claimed: both are functions of their arguments alone. An `Err` carries
/// the compile error's text; an `Ok` says whether the pattern matches
/// somewhere in `text` (the search is not anchored).
#[verifier::external_body]
pub(crate) fn regex_search(pattern: &str, text: &str) -> (r: Result<bool, String>)
    ensures
        match r {
            Ok(found) => regex_compile_error(pattern@) is None && found == regex_is_match(
                pattern@,
                text@,
            ),
            Err(e) => regex_compile_error(pattern@) == Some(e@),
        },
{
    match regex::Regex::new(pattern) {
        Ok(re) => Ok(re.is_match(text)),
        Err(e) => Err(e.to_string()),
    }
}

/// Encodes `bytes` with `base64::encode`.
///
/// Claimed: the result is a function of the bytes alone.
#[verifier::external_body]
pub(crate) fn base64_encode(bytes: &Vec<u8>) -> (r: String)
    ensures
        r@ == base64_text(bytes@),
{
    base64::encode(bytes)
}

/// Parses `text` with `str::parse::<u16>`.
///
/// Claimed: it accepts an optional plus sign followed by one or more ASCII
/// digits whose value fits in 16 bits, and nothing else; it returns that
/// value. For any other text the error's message is a function of the text.
#[verifier::external_body]
pub(crate) fn parse_u16(text: &str) -> (r: Result<u16, String>)
    ensures
        match r {
            Ok(n) => decimal_u16(text@) == Some(n),
            Err(e) => decimal_u16(text@) is None && e@ == u16_parse_error(text@),
        },
{
    match text.parse::<u16>() {
        Ok(n) => Ok(n),
        Err(e) => Err(e.to_string()),
    }
}

} // verus!
