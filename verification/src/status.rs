//! HTTP status codes as the gateway reads and relays them.

use vstd::prelude::*;
use crate::text::{has_substring, lemma_prefix_is_substring};

verus! {

/// The decimal digit for a number below ten.
pub open spec fn digit(d: int) -> char {
    (48 + d) as char
}

/// The three decimal digits of a status code.
pub open spec fn code_digits(code: u16) -> Seq<char> {
    seq![digit(code as int / 100), digit((code as int / 10) % 10), digit(code as int % 10)]
}

/// The reason phrase that the `http` crate prints after a status code: the
/// canonical phrase of the code, such as `Not Found`, or a placeholder where
/// the code has none.
pub uninterp spec fn reason_phrase(code: u16) -> Seq<char>;

/// The text that stands for a status code in messages: its three digits, a
/// space and its reason phrase, such as `404 Not Found`.
pub open spec fn status_line(code: u16) -> Seq<char> {
    code_digits(code) + seq![' '] + reason_phrase(code)
}

/// Calls `http::StatusCode::from_u16` and formats the code with its `Display`
/// impl, which writes the number in decimal, a space and the reason phrase.
/// The phrase is given the name [`reason_phrase`]. `from_u16` accepts exactly
/// 100..=999, so the number has three digits and the error arm is never
/// taken.
#[verifier::external_body]
fn status_display(code: u16) -> (r: String)
    requires
        100 <= code <= 999,
    ensures
        r@ == code_digits(code) + seq![' '] + reason_phrase(code),
{
    match http::StatusCode::from_u16(code) {
        Ok(status) => status.to_string(),
        Err(_) => String::new(),
    }
}

/// A status line holds the code: it starts with the code's three digits.
pub proof fn lemma_status_line_holds_code(code: u16)
    ensures
        status_line(code).len() >= 4,
        status_line(code).subrange(0, 3) == code_digits(code),
        has_substring(status_line(code), code_digits(code)),
{
    assert(status_line(code).subrange(0, 3) =~= code_digits(code));
    lemma_prefix_is_substring(status_line(code), code_digits(code));
}

/// A three-digit HTTP status code.
#[derive(Clone, Copy, Debug, PartialEq, Eq)]
pub struct HttpStatus {
    code: u16,
}

impl View for HttpStatus {
    type V = u16;

    closed spec fn view(&self) -> u16 {
        self.code
    }
}

impl HttpStatus {
    #[verifier::type_invariant]
    spec fn in_range(self) -> bool {
        100 <= self.code <= 999
    }

    /// Accepts the codes from 100 to 999.
    pub fn from_u16(code: u16) -> (r: Option<HttpStatus>)
        ensures
            r is Some <==> 100 <= code <= 999,
            r matches Some(status) ==> status@ == code,
    {
        if 100 <= code && code <= 999 {
            Some(HttpStatus { code })
        } else {
            None
        }
    }

    /// 200 OK.
    pub fn ok() -> (r: HttpStatus)
        ensures
            r@ == 200,
    {
        HttpStatus { code: 200 }
    }

    /// 500 Internal Server Error.
    pub fn internal_server_error() -> (r: HttpStatus)
        ensures
            r@ == 500,
    {
        HttpStatus { code: 500 }
    }

    /// The numeric code.
    pub fn as_u16(&self) -> (r: u16)
        ensures
            r == self@,
            100 <= r <= 999,
    {
        proof {
            use_type_invariant(self);
        }
        self.code
    }

    /// Whether the code is in 200..=299.
    pub fn is_success(&self) -> (r: bool)
        ensures
            r == (200 <= self@ < 300),
    {
        200 <= self.code && self.code < 300
    }

    /// Whether the code is 404.
    pub fn is_not_found(&self) -> (r: bool)
        ensures
            r == (self@ == 404),
    {
        self.code == 404
    }

    /// The code followed by its canonical reason phrase.
    pub fn describe(&self) -> (r: String)
        ensures
            r@ == status_line(self@),
    {
        proof {
            use_type_invariant(self);
        }
        status_display(self.code)
    }
}

} // verus!
