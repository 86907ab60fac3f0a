//! Status codes of a reply.

use vstd::prelude::*;

verus! {

/// A status code: a number from 100 to 999.
#[derive(Clone, Copy, Debug, PartialEq, Eq, Structural)]
pub struct StatusCode {
    code: u16,
}

/// The decimal digit `d` as a character.
pub open spec fn digit_char(d: int) -> char {
    ('0' as int + d) as char
}

/// The three decimal digits of `code`, highest first.
pub open spec fn decimal_digits(code: u16) -> Seq<char> {
    seq![
        digit_char(code as int / 100),
        digit_char((code as int / 10) % 10),
        digit_char(code as int % 10),
    ]
}

/// The number of a status code that may be absent.
pub open spec fn status_number(status: Option<StatusCode>) -> Option<u16> {
    match status {
        Some(code) => Some(code@),
        None => None,
    }
}

impl View for StatusCode {
    type V = u16;

    closed spec fn view(&self) -> u16 {
        self.code
    }
}

impl StatusCode {
    #[verifier::type_invariant]
    spec fn in_range(self) -> bool {
        100 <= self.code <= 999
    }

    /// The status code with the number `code`, if there is one.
    pub fn from_u16(code: u16) -> (r: Option<StatusCode>)
        ensures
            r is Some <==> 100 <= code <= 999,
            r matches Some(status) ==> status@ == code,
    {
        if 100 <= code && code <= 999 {
            Some(StatusCode { code })
        } else {
            None
        }
    }

    /// 200 OK.
    pub fn ok() -> (r: StatusCode)
        ensures
            r@ == 200,
    {
        StatusCode { code: 200 }
    }

    /// 400 Bad Request.
    pub fn bad_request() -> (r: StatusCode)
        ensures
            r@ == 400,
    {
        StatusCode { code: 400 }
    }

    /// 401 Unauthorized.
    pub fn unauthorized() -> (r: StatusCode)
        ensures
            r@ == 401,
    {
        StatusCode { code: 401 }
    }

    /// 403 Forbidden.
    pub fn forbidden() -> (r: StatusCode)
        ensures
            r@ == 403,
    {
        StatusCode { code: 403 }
    }

    /// 404 Not Found.
    pub fn not_found() -> (r: StatusCode)
        ensures
            r@ == 404,
    {
        StatusCode { code: 404 }
    }

    /// 405 Method Not Allowed.
    pub fn method_not_allowed() -> (r: StatusCode)
        ensures
            r@ == 405,
    {
        StatusCode { code: 405 }
    }

    /// 423 Locked.
    pub fn locked() -> (r: StatusCode)
        ensures
            r@ == 423,
    {
        StatusCode { code: 423 }
    }

    /// 500 Internal Server Error.
    pub fn internal_server_error() -> (r: StatusCode)
        ensures
            r@ == 500,
    {
        StatusCode { code: 500 }
    }

    /// The number of this status code.
    pub fn as_u16(&self) -> (r: u16)
        ensures
            r == self@,
            100 <= r <= 999,
    {
        proof {
            use_type_invariant(self);
        }
        self.code
    }

    /// The number of this status code in decimal digits.
    pub fn as_text(&self) -> (r: String)
        ensures
            r@ == decimal_digits(self@),
    {
        let code = self.as_u16();
        code_digits(code)
    }
}

/// `http::StatusCode::as_str`, which salvo hands on: the number of a status
/// code from 100 to 999, written as its three decimal digits.
#[verifier::external_body]
fn code_digits(code: u16) -> (digits: String)
    requires
        100 <= code <= 999,
    ensures
        digits@ == decimal_digits(code),
{
    match salvo::http::StatusCode::from_u16(code) {
        Ok(status) => status.as_str().to_owned(),
        Err(_) => String::new(),
    }
}

} // verus!
