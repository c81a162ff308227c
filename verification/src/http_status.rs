//! HTTP status codes.
use vstd::prelude::*;

verus! {

/// An HTTP status code.
#[derive(Clone, Copy, Debug, PartialEq, Eq)]
pub struct HttpStatus {
    code: u16,
}

impl HttpStatus {
    #[verifier::type_invariant]
    pub closed spec fn in_range(self) -> bool {
        100 <= self.code <= 999
    }

    /// The status with this code.
    pub fn from_u16(code: u16) -> (r: Option<HttpStatus>)
        ensures
            r is Some <==> 100 <= code <= 999,
            r matches Some(status) ==> status@ == code,
    {
        if 100 <= code && code <= 999 {
            Some(HttpStatus { code })
        } else {
            None
        }
    }

    /// The code.
    pub fn as_u16(&self) -> (r: u16)
        ensures
            r == self@,
            100 <= r <= 999,
    {
        proof {
            use_type_invariant(self);
        }
        self.code
    }

    /// The code with the reason that goes with it.
    pub fn to_string(&self) -> (r: String)
        ensures
            r@ == status_text(self@),
    {
        proof {
            use_type_invariant(self);
        }
        write_status(self.code)
    }
}

impl View for HttpStatus {
    type V = u16;

    closed spec fn view(&self) -> u16 {
        self.code
    }
}

impl DeepView for HttpStatus {
    type V = u16;

    open spec fn deep_view(&self) -> u16 {
        self.view()
    }
}

/// The text of a status code: the code and the reason that the standards give
/// for it.
pub uninterp spec fn status_text(code: u16) -> Seq<char>;

/// The `Display` text of `reqwest::StatusCode`.
#[verifier::external_body]
fn write_status(code: u16) -> (r: String)
    requires
        100 <= code <= 999,
    ensures
        r@ == status_text(code),
{
    reqwest::StatusCode::from_u16(code).unwrap_or_default().to_string()
}

/// The codes 200 to 299 report success.
pub fn is_success(code: u16) -> (r: bool)
    ensures
        r == (200 <= code <= 299),
{
    200 <= code && code <= 299
}

/// The family of a status code.
pub open spec fn family_of(code: u16) -> Seq<char> {
    if 200 <= code <= 299 {
        "2xx"@
    } else if 300 <= code <= 399 {
        "3xx"@
    } else if 400 <= code <= 499 {
        "4xx"@
    } else if 500 <= code <= 599 {
        "5xx"@
    } else {
        "unknown"@
    }
}

/// The family of a status code: its first digit, or `unknown` outside the
/// families from 200 to 599.
pub fn status_family(code: u16) -> (r: String)
    ensures
        r@ == family_of(code),
{
    if 200 <= code && code <= 299 {
        "2xx".to_string()
    } else if 300 <= code && code <= 399 {
        "3xx".to_string()
    } else if 400 <= code && code <= 499 {
        "4xx".to_string()
    } else if 500 <= code && code <= 599 {
        "5xx".to_string()
    } else {
        "unknown".to_string()
    }
}

/// The family of a status is its first digit and two letters in place of the
/// others, from 200 to 599.
pub proof fn law_family_is_the_first_digit(code: u16)
    ensures
        200 <= code < 600 ==> family_of(code).len() == 3 && family_of(code)[0] as int == '0' as int + code / 100
            && family_of(code)[1] == 'x' && family_of(code)[2] == 'x',
        !(200 <= code < 600) ==> family_of(code) == "unknown"@,
{
    reveal_strlit("2xx");
    reveal_strlit("3xx");
    reveal_strlit("4xx");
    reveal_strlit("5xx");
}

} // verus!
