//! Checks of option values before the server is set up.

use vstd::prelude::*;
use vstd::string::*;
use crate::text::decimal_u16;
use crate::wrappers::{parse_u16, regex_compile_error, regex_search, u16_parse_error};

verus! {

/// What opens the message about a refused value.
pub const QUOTE: &'static str = "'";

/// What follows a value that is no port.
pub const NOT_A_PORT: &'static str = "' is not a valid port value: ";

/// What follows a value that is no regular expression.
pub const NOT_A_REGEX: &'static str = "' is not a valid regular expression: ";

/// The port that is taken where none is given: the system picks one.
pub const ANY_PORT: u16 = 0;

/// The message about `value`, refused as a port for `reason`.
pub open spec fn invalid_port_message(value: Seq<char>, reason: Seq<char>) -> Seq<char> {
    QUOTE@ + value + NOT_A_PORT@ + reason
}

/// The message about `value`, refused as a regular expression for `reason`.
pub open spec fn invalid_pattern_message(value: Seq<char>, reason: Seq<char>) -> Seq<char> {
    QUOTE@ + value + NOT_A_REGEX@ + reason
}

/// Whether `pattern` is a regular expression: `Ok`, or the message that
/// says why not.
pub fn check_pattern(pattern: &str) -> (r: Result<(), String>)
    ensures
        match r {
            Ok(_) => regex_compile_error(pattern@) is None,
            Err(m) => regex_compile_error(pattern@) matches Some(e) && m@
                == invalid_pattern_message(pattern@, e),
        },
{
    match regex_search(pattern, "") {
        Ok(_) => Ok(()),
        Err(e) => {
            let mut message = QUOTE.to_owned();
            message.append(pattern);
            message.append(NOT_A_REGEX);
            message.append(e.as_str());
            Err(message)
        },
    }
}

/// Accepts `v` where it is a regular expression, and says why where it is
/// not.
pub fn regex_value(v: String) -> (r: Result<(), String>)
    ensures
        match r {
            Ok(_) => regex_compile_error(v@) is None,
            Err(m) => regex_compile_error(v@) matches Some(e) && m@ == invalid_pattern_message(
                v@,
                e,
            ),
        },
{
    check_pattern(v.as_str())
}

/// Accepts `v` where it writes a port number, and says why where it does
/// not.
pub fn integer_value(v: String) -> (r: Result<(), String>)
    ensures
        match r {
            Ok(_) => decimal_u16(v@) is Some,
            Err(m) => decimal_u16(v@) is None && m@ == invalid_port_message(
                v@,
                u16_parse_error(v@),
            ),
        },
{
    match parse_u16(v.as_str()) {
        Ok(_) => Ok(()),
        Err(e) => {
            let mut message = QUOTE.to_owned();
            message.append(v.as_str());
            message.append(NOT_A_PORT);
            message.append(e.as_str());
            Err(message)
        },
    }
}

/// The port to listen on: the one that `value` writes, or `ANY_PORT` where
/// no value is given. `None` where a value is given that writes no port.
pub fn port_or_default(value: &Option<String>) -> (r: Option<u16>)
    ensures
        r == match *value {
            None => Some(ANY_PORT),
            Some(v) => decimal_u16(v@),
        },
{
    match value {
        None => Some(ANY_PORT),
        Some(v) => match parse_u16(v.as_str()) {
            Ok(n) => Some(n),
            Err(_) => None,
        },
    }
}

} // verus!
