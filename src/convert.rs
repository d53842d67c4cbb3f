//! Conversions from `std::io`, `http` and `reqwest` errors into
//! [`StackError`].
//!
//! Each conversion reads what it needs from the outside value (a kind, a
//! status value, a text) and hands it to a verified constructor that builds
//! the chain.

use crate::chain::{ChainView, Op};
use crate::codes::{http_code_for, io_code_for, ErrorCode};
use crate::error::{ErrorStacks, StackError};
use std::io::ErrorKind;
use vstd::prelude::*;
use vstd::std_specs::convert::FromSpecImpl;
use vstd::string::to_string_from_display_ensures;

verus! {

#[verifier::external_type_specification]
#[verifier::external_body]
pub struct ExIoError(std::io::Error);

#[verifier::external_type_specification]
#[verifier::external_body]
pub struct ExStatusCode(http::StatusCode);

#[verifier::external_type_specification]
#[verifier::external_body]
pub struct ExReqwestError(reqwest::Error);

/// Relies on `std::io::Error::kind`: the category of an I/O error.
pub assume_specification[ std::io::Error::kind ](e: &std::io::Error) -> ErrorKind;

/// Relies on `http::StatusCode::as_u16`: the numeric status value.
pub assume_specification[ http::StatusCode::as_u16 ](s: &http::StatusCode) -> u16;

/// Relies on `reqwest::Error::status`: the HTTP status of a failed response,
/// where the error came from one.
pub assume_specification[ reqwest::Error::status ](e: &reqwest::Error) -> Option<http::StatusCode>;

/// The chain that a status value and its text give: the text as root message,
/// and the code of that status value, if it has one.
pub open spec fn status_chain(value: u16, text: Seq<char>) -> ChainView<ErrorCode> {
    ChainView::root_with_code(text, http_code_for(value))
}

impl StackError {
    /// A root error for an I/O failure of the given kind, with its text as
    /// message; kinds without a code give an error without a code.
    pub fn from_io_parts(kind: ErrorKind, message: &str) -> (r: Self)
        ensures
            r@ == ChainView::root_with_code(message@, io_code_for(kind)),
    {
        let err = StackError::from_msg(message);
        match ErrorCode::from_io_kind(kind) {
            Some(code) => {
                let r = err.with_err_code(code);
                assert(r@.nodes =~= ChainView::root_with_code(message@, Some(code)).nodes);
                r
            },
            None => err,
        }
    }

    /// A root error for an HTTP status value, with the status's text as
    /// message; values outside the table give an error without a code.
    pub fn from_status_parts(value: u16, text: &str) -> (r: Self)
        ensures
            r@ == status_chain(value, text@),
    {
        let err = StackError::from_msg(text);
        match ErrorCode::from_http_value(value) {
            Some(code) => {
                let r = err.with_err_code(code);
                assert(r@.nodes =~= ChainView::root_with_code(text@, Some(code)).nodes);
                r
            },
            None => err,
        }
    }

    /// The error for an HTTP client failure: where it carries a status (its
    /// value and text), the status's error with the client's message stacked
    /// on top; otherwise a root error with the client's message.
    pub fn from_client_parts(status: Option<(u16, String)>, message: &str) -> (r: Self)
        ensures
            r@ == match status {
                Some((value, text)) => status_chain(value, text@).step(Op::Stack(message@)),
                None => ChainView::root(message@),
            },
    {
        match status {
            Some((value, text)) => StackError::from_status_parts(value, text.as_str()).stack_err_msg(
                message,
            ),
            None => StackError::from_msg(message),
        }
    }
}

impl From<std::io::Error> for StackError {
    fn from(error: std::io::Error) -> (r: Self)
        ensures
            exists|k: ErrorKind, t: String|
                to_string_from_display_ensures::<std::io::Error>(&error, t) && r@
                    == ChainView::<ErrorCode>::root_with_code(t@, io_code_for(k)),
    {
        let kind = error.kind();
        let text = error.to_string();
        let r = StackError::from_io_parts(kind, text.as_str());
        assert(to_string_from_display_ensures::<std::io::Error>(&error, text) && r@
            == ChainView::<ErrorCode>::root_with_code(text@, io_code_for(kind)));
        r
    }
}

impl FromSpecImpl<std::io::Error> for StackError {
    open spec fn obeys_from_spec() -> bool {
        false
    }

    open spec fn from_spec(v: std::io::Error) -> Self {
        arbitrary()
    }
}

impl From<http::StatusCode> for StackError {
    fn from(status: http::StatusCode) -> (r: Self)
        ensures
            exists|v: u16, t: String|
                to_string_from_display_ensures::<http::StatusCode>(&status, t) && r@
                    == status_chain(v, t@),
    {
        let value = status.as_u16();
        let text = status.to_string();
        let r = StackError::from_status_parts(value, text.as_str());
        assert(to_string_from_display_ensures::<http::StatusCode>(&status, text) && r@
            == status_chain(value, text@));
        r
    }
}

impl FromSpecImpl<http::StatusCode> for StackError {
    open spec fn obeys_from_spec() -> bool {
        false
    }

    open spec fn from_spec(v: http::StatusCode) -> Self {
        arbitrary()
    }
}

impl From<reqwest::Error> for StackError {
    fn from(error: reqwest::Error) -> (r: Self)
        ensures
            exists|t: String|
                to_string_from_display_ensures::<reqwest::Error>(&error, t) && (r@
                    == ChainView::<ErrorCode>::root(t@) || exists|v: u16, s: Seq<char>|
                    r@ == status_chain(v, s).step(Op::Stack(t@))),
    {
        let status = match error.status() {
            Some(s) => Some((s.as_u16(), s.to_string())),
            None => None,
        };
        let text = error.to_string();
        let ghost given = status;
        let r = StackError::from_client_parts(status, text.as_str());
        proof {
            if let Some((v, s)) = given {
                assert(r@ == status_chain(v, s@).step(Op::Stack(text@)));
            }
        }
        assert(to_string_from_display_ensures::<reqwest::Error>(&error, text));
        r
    }
}

impl FromSpecImpl<reqwest::Error> for StackError {
    open spec fn obeys_from_spec() -> bool {
        false
    }

    open spec fn from_spec(v: reqwest::Error) -> Self {
        arbitrary()
    }
}

} // verus!
