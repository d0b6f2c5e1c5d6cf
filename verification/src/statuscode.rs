//! See documentation for [`HttpStatus`].

use vstd::arithmetic::div_mod::{lemma_basic_div, lemma_div_decreases, lemma_small_mod};
use vstd::prelude::*;

use crate::push_char;

verus! {

/// Enumeration representing HTTP response status codes defined by [RFC #7231],
/// [RFC #7232], [RFC #7235], and [RFC #6585].
///
/// [RFC #7231]: https://datatracker.ietf.org/doc/html/rfc7231
/// [RFC #7232]: https://datatracker.ietf.org/doc/html/rfc7232
/// [RFC #7235]: https://datatracker.ietf.org/doc/html/rfc7235
/// [RFC #6585]: https://datatracker.ietf.org/doc/html/rfc6585
#[derive(Copy, Clone, Debug, PartialEq, Eq, Structural)]
pub enum HttpStatus {
    /// Informational response, section 6.2.1 of RFC #7231.
    Continue,
    /// Informational response, section 6.2.2 of RFC #7231.
    SwitchingProtocols,
    /// Successful response, section 6.3.1 of RFC #7231.
    Okay,
    /// Successful response, section 6.3.2 of RFC #7231.
    Created,
    /// Successful response, section 6.3.3 of RFC #7231.
    Accepted,
    /// Successful response, section 6.3.4 of RFC #7231.
    NonAuthoritativeInformation,
    /// Successful response, section 6.3.5 of RFC #7231.
    NoContent,
    /// Successful response, section 6.3.6 of RFC #7231.
    ResetContent,
    /// Successful response, section 4.1 of RFC #7233.
    PartialContent,
    /// Redirection, section 6.4.1 of RFC #7231.
    MultipleChoices,
    /// Redirection, section 6.4.2 of RFC #7231.
    MovedPermanently,
    /// Redirection, section 6.4.3 of RFC #7231.
    Found,
    /// Redirection, section 6.4.4 of RFC #7231.
    SeeOther,
    /// Redirection, section 4.1 of RFC #7232.
    NotModified,
    /// Redirection, section 6.4.5 of RFC #7231.
    UseProxy,
    /// Redirection, section 6.4.7 of RFC #7231.
    TemporaryRedirect,
    /// Client error, section 6.5.1 of RFC #7231.
    BadRequest,
    /// Client error, section 3.1 of RFC #7235.
    Unauthorized,
    /// Client error, section 6.5.2 of RFC #7231.
    PaymentRequired,
    /// Client error, section 6.5.3 of RFC #7231.
    Forbidden,
    /// Client error, section 6.5.4 of RFC #7231.
    NotFound,
    /// Client error, section 6.5.5 of RFC #7231.
    MethodNotAllowed,
    /// Client error, section 6.5.6 of RFC #7231.
    NotAcceptable,
    /// Client error, section 3.2 of RFC #7235.
    ProxyAuthenticationRequired,
    /// Client error, section 6.5.7 of RFC #7231.
    RequestTimeout,
    /// Client error, section 6.5.8 of RFC #7231.
    Conflict,
    /// Client error, section 6.5.9 of RFC #7231.
    Gone,
    /// Client error, section 6.5.10 of RFC #7231.
    LengthRequired,
    /// Client error, section 4.2 of RFC #7232.
    PreconditionFailed,
    /// Client error, section 6.5.11 of RFC #7231.
    PayloadTooLarge,
    /// Client error, section 6.5.12 of RFC #7231.
    UriTooLong,
    /// Client error, section 6.5.13 of RFC #7231.
    UnsupportedMediaType,
    /// Client error, section 4.4 of RFC #7233.
    RangeNotSatisfiable,
    /// Client error, section 6.5.14 of RFC #7231.
    ExpectationFailed,
    /// Client error, section 6.5.15 of RFC #7231.
    UpgradeRequired,
    /// Client error, section 3 of RFC #6585.
    PreconditionRequired,
    /// Client error, section 4 of RFC #6585.
    TooManyRequests,
    /// Client error, section 5 of RFC #6585.
    RequestHeaderFieldsTooLarge,
    /// Server error, section 6.6.1 of RFC #7231.
    InternalServerError,
    /// Server error, section 6.6.2 of RFC #7231.
    NotImplemented,
    /// Server error, section 6.6.3 of RFC #7231.
    BadGateway,
    /// Server error, section 6.6.4 of RFC #7231.
    ServiceUnavailable,
    /// Server error, section 6.6.5 of RFC #7231.
    GatewayTimeout,
    /// Server error, section 6.6.6 of RFC #7231.
    HttpVersionNotSupported,
    /// Server error, section 6 of RFC #6585.
    NetworkAuthenticationRequired,
    /// If a server responds with a custom code this variant will be used.
    /// The `u16` contained is the status code.
    Custom(u16),
}

impl HttpStatus {
    /// The numeric code that each status stands for; `Custom` carries its own.
    pub open spec fn code_spec(self) -> u16 {
        match self {
            HttpStatus::Continue => 100,
            HttpStatus::SwitchingProtocols => 101,
            HttpStatus::Okay => 200,
            HttpStatus::Created => 201,
            HttpStatus::Accepted => 202,
            HttpStatus::NonAuthoritativeInformation => 203,
            HttpStatus::NoContent => 204,
            HttpStatus::ResetContent => 205,
            HttpStatus::PartialContent => 206,
            HttpStatus::MultipleChoices => 300,
            HttpStatus::MovedPermanently => 301,
            HttpStatus::Found => 302,
            HttpStatus::SeeOther => 303,
            HttpStatus::NotModified => 304,
            HttpStatus::UseProxy => 305,
            HttpStatus::TemporaryRedirect => 307,
            HttpStatus::BadRequest => 400,
            HttpStatus::Unauthorized => 401,
            HttpStatus::PaymentRequired => 402,
            HttpStatus::Forbidden => 403,
            HttpStatus::NotFound => 404,
            HttpStatus::MethodNotAllowed => 405,
            HttpStatus::NotAcceptable => 406,
            HttpStatus::ProxyAuthenticationRequired => 407,
            HttpStatus::RequestTimeout => 408,
            HttpStatus::Conflict => 409,
            HttpStatus::Gone => 410,
            HttpStatus::LengthRequired => 411,
            HttpStatus::PreconditionFailed => 412,
            HttpStatus::PayloadTooLarge => 413,
            HttpStatus::UriTooLong => 414,
            HttpStatus::UnsupportedMediaType => 415,
            HttpStatus::RangeNotSatisfiable => 416,
            HttpStatus::ExpectationFailed => 417,
            HttpStatus::UpgradeRequired => 426,
            HttpStatus::PreconditionRequired => 428,
            HttpStatus::TooManyRequests => 429,
            HttpStatus::RequestHeaderFieldsTooLarge => 431,
            HttpStatus::InternalServerError => 500,
            HttpStatus::NotImplemented => 501,
            HttpStatus::BadGateway => 502,
            HttpStatus::ServiceUnavailable => 503,
            HttpStatus::GatewayTimeout => 504,
            HttpStatus::HttpVersionNotSupported => 505,
            HttpStatus::NetworkAuthenticationRequired => 511,
            HttpStatus::Custom(code) => code,
        }
    }

    /// The named status, if any, whose numeric code is the given one;
    /// every other code maps to `Custom`.
    pub open spec fn from_code_spec(code: u16) -> HttpStatus {
        match code {
            100u16 => HttpStatus::Continue,
            101u16 => HttpStatus::SwitchingProtocols,
            200u16 => HttpStatus::Okay,
            201u16 => HttpStatus::Created,
            202u16 => HttpStatus::Accepted,
            203u16 => HttpStatus::NonAuthoritativeInformation,
            204u16 => HttpStatus::NoContent,
            205u16 => HttpStatus::ResetContent,
            206u16 => HttpStatus::PartialContent,
            300u16 => HttpStatus::MultipleChoices,
            301u16 => HttpStatus::MovedPermanently,
            302u16 => HttpStatus::Found,
            303u16 => HttpStatus::SeeOther,
            304u16 => HttpStatus::NotModified,
            305u16 => HttpStatus::UseProxy,
            307u16 => HttpStatus::TemporaryRedirect,
            400u16 => HttpStatus::BadRequest,
            401u16 => HttpStatus::Unauthorized,
            402u16 => HttpStatus::PaymentRequired,
            403u16 => HttpStatus::Forbidden,
            404u16 => HttpStatus::NotFound,
            405u16 => HttpStatus::MethodNotAllowed,
            406u16 => HttpStatus::NotAcceptable,
            407u16 => HttpStatus::ProxyAuthenticationRequired,
            408u16 => HttpStatus::RequestTimeout,
            409u16 => HttpStatus::Conflict,
            410u16 => HttpStatus::Gone,
            411u16 => HttpStatus::LengthRequired,
            412u16 => HttpStatus::PreconditionFailed,
            413u16 => HttpStatus::PayloadTooLarge,
            414u16 => HttpStatus::UriTooLong,
            415u16 => HttpStatus::UnsupportedMediaType,
            416u16 => HttpStatus::RangeNotSatisfiable,
            417u16 => HttpStatus::ExpectationFailed,
            426u16 => HttpStatus::UpgradeRequired,
            428u16 => HttpStatus::PreconditionRequired,
            429u16 => HttpStatus::TooManyRequests,
            431u16 => HttpStatus::RequestHeaderFieldsTooLarge,
            500u16 => HttpStatus::InternalServerError,
            501u16 => HttpStatus::NotImplemented,
            502u16 => HttpStatus::BadGateway,
            503u16 => HttpStatus::ServiceUnavailable,
            504u16 => HttpStatus::GatewayTimeout,
            505u16 => HttpStatus::HttpVersionNotSupported,
            511u16 => HttpStatus::NetworkAuthenticationRequired,
            _ => HttpStatus::Custom(code),
        }
    }

    /// Copy of the numeric status code.
    pub fn code(&self) -> (r: u16)
        ensures
            r == self.code_spec(),
    {
        match self {
            HttpStatus::Continue => 100,
            HttpStatus::SwitchingProtocols => 101,
            HttpStatus::Okay => 200,
            HttpStatus::Created => 201,
            HttpStatus::Accepted => 202,
            HttpStatus::NonAuthoritativeInformation => 203,
            HttpStatus::NoContent => 204,
            HttpStatus::ResetContent => 205,
            HttpStatus::PartialContent => 206,
            HttpStatus::MultipleChoices => 300,
            HttpStatus::MovedPermanently => 301,
            HttpStatus::Found => 302,
            HttpStatus::SeeOther => 303,
            HttpStatus::NotModified => 304,
            HttpStatus::UseProxy => 305,
            HttpStatus::TemporaryRedirect => 307,
            HttpStatus::BadRequest => 400,
            HttpStatus::Unauthorized => 401,
            HttpStatus::PaymentRequired => 402,
            HttpStatus::Forbidden => 403,
            HttpStatus::NotFound => 404,
            HttpStatus::MethodNotAllowed => 405,
            HttpStatus::NotAcceptable => 406,
            HttpStatus::ProxyAuthenticationRequired => 407,
            HttpStatus::RequestTimeout => 408,
            HttpStatus::Conflict => 409,
            HttpStatus::Gone => 410,
            HttpStatus::LengthRequired => 411,
            HttpStatus::PreconditionFailed => 412,
            HttpStatus::PayloadTooLarge => 413,
            HttpStatus::UriTooLong => 414,
            HttpStatus::UnsupportedMediaType => 415,
            HttpStatus::RangeNotSatisfiable => 416,
            HttpStatus::ExpectationFailed => 417,
            HttpStatus::UpgradeRequired => 426,
            HttpStatus::PreconditionRequired => 428,
            HttpStatus::TooManyRequests => 429,
            HttpStatus::RequestHeaderFieldsTooLarge => 431,
            HttpStatus::InternalServerError => 500,
            HttpStatus::NotImplemented => 501,
            HttpStatus::BadGateway => 502,
            HttpStatus::ServiceUnavailable => 503,
            HttpStatus::GatewayTimeout => 504,
            HttpStatus::HttpVersionNotSupported => 505,
            HttpStatus::NetworkAuthenticationRequired => 511,
            HttpStatus::Custom(code) => *code,
        }
    }

    /// The status that a numeric code stands for; codes without a named
    /// variant become `Custom`.
    pub fn from_code(code: u16) -> (r: HttpStatus)
        ensures
            r == HttpStatus::from_code_spec(code),
    {
        match code {
            100 => HttpStatus::Continue,
            101 => HttpStatus::SwitchingProtocols,
            200 => HttpStatus::Okay,
            201 => HttpStatus::Created,
            202 => HttpStatus::Accepted,
            203 => HttpStatus::NonAuthoritativeInformation,
            204 => HttpStatus::NoContent,
            205 => HttpStatus::ResetContent,
            206 => HttpStatus::PartialContent,
            300 => HttpStatus::MultipleChoices,
            301 => HttpStatus::MovedPermanently,
            302 => HttpStatus::Found,
            303 => HttpStatus::SeeOther,
            304 => HttpStatus::NotModified,
            305 => HttpStatus::UseProxy,
            307 => HttpStatus::TemporaryRedirect,
            400 => HttpStatus::BadRequest,
            401 => HttpStatus::Unauthorized,
            402 => HttpStatus::PaymentRequired,
            403 => HttpStatus::Forbidden,
            404 => HttpStatus::NotFound,
            405 => HttpStatus::MethodNotAllowed,
            406 => HttpStatus::NotAcceptable,
            407 => HttpStatus::ProxyAuthenticationRequired,
            408 => HttpStatus::RequestTimeout,
            409 => HttpStatus::Conflict,
            410 => HttpStatus::Gone,
            411 => HttpStatus::LengthRequired,
            412 => HttpStatus::PreconditionFailed,
            413 => HttpStatus::PayloadTooLarge,
            414 => HttpStatus::UriTooLong,
            415 => HttpStatus::UnsupportedMediaType,
            416 => HttpStatus::RangeNotSatisfiable,
            417 => HttpStatus::ExpectationFailed,
            426 => HttpStatus::UpgradeRequired,
            428 => HttpStatus::PreconditionRequired,
            429 => HttpStatus::TooManyRequests,
            431 => HttpStatus::RequestHeaderFieldsTooLarge,
            500 => HttpStatus::InternalServerError,
            501 => HttpStatus::NotImplemented,
            502 => HttpStatus::BadGateway,
            503 => HttpStatus::ServiceUnavailable,
            504 => HttpStatus::GatewayTimeout,
            505 => HttpStatus::HttpVersionNotSupported,
            511 => HttpStatus::NetworkAuthenticationRequired,
            _ => HttpStatus::Custom(code),
        }
    }
}

/// Decoding a status to its numeric code and encoding that code back always
/// returns the original code, whether or not the code has a named variant.
pub proof fn lemma_code_of_from_code(code: u16)
    ensures
        HttpStatus::from_code_spec(code).code_spec() == code,
{
}

/// Encoding a named (non-`Custom`) status to its code and decoding again
/// returns the same status.
pub proof fn lemma_from_code_of_code(status: HttpStatus)
    requires
        status !is Custom,
    ensures
        HttpStatus::from_code_spec(status.code_spec()) == status,
{
}


impl From<u16> for HttpStatus {
    /// The status that a numeric code stands for; codes without a named
    /// variant become `Custom`.
    fn from(code: u16) -> (r: HttpStatus)
        ensures
            r == HttpStatus::from_code_spec(code),
    {
        HttpStatus::from_code(code)
    }
}

impl vstd::std_specs::convert::FromSpecImpl<u16> for HttpStatus {
    open spec fn obeys_from_spec() -> bool {
        true
    }

    open spec fn from_spec(code: u16) -> Self {
        HttpStatus::from_code_spec(code)
    }
}

impl From<HttpStatus> for u16 {
    /// The numeric code that a status stands for.
    fn from(status: HttpStatus) -> (r: u16)
        ensures
            r == status.code_spec(),
    {
        status.code()
    }
}

impl vstd::std_specs::convert::FromSpecImpl<HttpStatus> for u16 {
    open spec fn obeys_from_spec() -> bool {
        true
    }

    open spec fn from_spec(status: HttpStatus) -> u16 {
        status.code_spec()
    }
}

/// The decimal digits of a value, most significant first, without leading
/// zeroes (zero itself is the single digit `0`).
pub open spec fn decimal_digits(value: nat) -> Seq<char>
    decreases value,
{
    if value < 10 {
        seq![((value + 48) as u8) as char]
    } else {
        decimal_digits(value / 10) + seq![(((value % 10) + 48) as u8) as char]
    }
}

/// The digits of a value, or nothing for zero: the digits that stand in
/// front of the ones already produced while a number is being written out.
pub open spec fn decimal_leading_digits(value: nat) -> Seq<char> {
    if value == 0 {
        Seq::empty()
    } else {
        decimal_digits(value)
    }
}

/// Writes a value out in decimal.
fn u16_decimal(value: u16) -> (r: String)
    ensures
        r@ == decimal_digits(value as nat),
{
    let mut digits: Vec<char> = Vec::new();
    // Produce the digits least significant first.
    digits.push((value % 10 + 48) as u8 as char);
    let mut remaining: u16 = value / 10;
    proof {
        if value < 10 {
            lemma_small_mod(value as nat, 10);
            lemma_basic_div(value as int, 10);
            assert(digits@.reverse() =~= seq![((value + 48) as u8) as char]);
        } else {
            assert(digits@.reverse() =~= seq![(((value % 10) + 48) as u8) as char]);
        }
    }
    while remaining != 0
        invariant
            digits@.len() >= 1,
            decimal_digits(value as nat) == decimal_leading_digits(remaining as nat)
                + digits@.reverse(),
        decreases remaining,
    {
        let ghost digits_before = digits@;
        let ghost remaining_before = remaining as nat;
        digits.push((remaining % 10 + 48) as u8 as char);
        remaining = remaining / 10;
        proof {
            assert(digits@.reverse() =~= seq![(((remaining_before % 10) + 48) as u8) as char]
                + digits_before.reverse());
            if remaining_before < 10 {
                lemma_small_mod(remaining_before, 10);
                lemma_basic_div(remaining_before as int, 10);
            }
            assert(decimal_leading_digits((remaining_before / 10) as nat) + seq![
                (((remaining_before % 10) + 48) as u8) as char,
            ] =~= decimal_leading_digits(remaining_before));
            assert(decimal_digits(value as nat) =~= decimal_leading_digits(remaining as nat)
                + digits@.reverse());
            lemma_div_decreases(remaining_before as int, 10);
        }
    }
    // Assemble the string most significant digit first.
    let total = digits.len();
    let mut written = String::new();
    let mut index: usize = 0;
    while index < total
        invariant
            total == digits@.len(),
            index <= total,
            written@ == digits@.reverse().subrange(0, index as int),
        decreases total - index,
    {
        push_char(&mut written, digits[total - 1 - index]);
        index = index + 1;
        proof {
            assert(written@ =~= digits@.reverse().subrange(0, index as int));
        }
    }
    proof {
        assert(digits@.reverse().subrange(0, total as int) =~= digits@.reverse());
    }
    written
}

impl HttpStatus {
    /// The status line that each status prints as: the numeric code, a
    /// colon, and the reason phrase (`Custom Response` for codes without a
    /// named variant).
    pub open spec fn message_spec(self) -> Seq<char> {
        match self {
            HttpStatus::Continue => "100: Continue"@,
            HttpStatus::SwitchingProtocols => "101: Switching Protocols"@,
            HttpStatus::Okay => "200: OK"@,
            HttpStatus::Created => "201: Created"@,
            HttpStatus::Accepted => "202: Accepted"@,
            HttpStatus::NonAuthoritativeInformation => "203: Non-Authoritative Information"@,
            HttpStatus::NoContent => "204: No Content"@,
            HttpStatus::ResetContent => "205: Reset Content"@,
            HttpStatus::PartialContent => "206: Partial Content"@,
            HttpStatus::MultipleChoices => "300: Multiple Choices"@,
            HttpStatus::MovedPermanently => "301: Moved Permanently"@,
            HttpStatus::Found => "302: Found"@,
            HttpStatus::SeeOther => "303: See Other"@,
            HttpStatus::NotModified => "304: Not Modified"@,
            HttpStatus::UseProxy => "305: Use Proxy"@,
            HttpStatus::TemporaryRedirect => "307: Temporary Redirect"@,
            HttpStatus::BadRequest => "400: Bad Request"@,
            HttpStatus::Unauthorized => "401: Unauthorized"@,
            HttpStatus::PaymentRequired => "402: Payment Required"@,
            HttpStatus::Forbidden => "403: Forbidden"@,
            HttpStatus::NotFound => "404: Not Found"@,
            HttpStatus::MethodNotAllowed => "405: Method Not Allowed"@,
            HttpStatus::NotAcceptable => "406: Not Acceptable"@,
            HttpStatus::ProxyAuthenticationRequired => "407: Proxy Authentication Required"@,
            HttpStatus::RequestTimeout => "408: Request Timeout"@,
            HttpStatus::Conflict => "409: Conflict"@,
            HttpStatus::Gone => "410: Gone"@,
            HttpStatus::LengthRequired => "411: Length Required"@,
            HttpStatus::PreconditionFailed => "412: Precondition Failed"@,
            HttpStatus::PayloadTooLarge => "413: Payload Too Large"@,
            HttpStatus::UriTooLong => "414: URI Too Long"@,
            HttpStatus::UnsupportedMediaType => "415: Unsupported Media Type"@,
            HttpStatus::RangeNotSatisfiable => "416: Range Not Satisfiable"@,
            HttpStatus::ExpectationFailed => "417: Expectation Failed"@,
            HttpStatus::UpgradeRequired => "426: Upgrade Required"@,
            HttpStatus::PreconditionRequired => "428: Precondition Required"@,
            HttpStatus::TooManyRequests => "429: Too Many Requests"@,
            HttpStatus::RequestHeaderFieldsTooLarge => "431: Request Header Fields Too Large"@,
            HttpStatus::InternalServerError => "500: Internal Server Error"@,
            HttpStatus::NotImplemented => "501: Not Implemented"@,
            HttpStatus::BadGateway => "502: Bad Gateway"@,
            HttpStatus::ServiceUnavailable => "503: Service Unavailable"@,
            HttpStatus::GatewayTimeout => "504: Gateway Timeout"@,
            HttpStatus::HttpVersionNotSupported => "505: HTTP Version Not Supported"@,
            HttpStatus::NetworkAuthenticationRequired => "511: Network Authentication Required"@,
            HttpStatus::Custom(code) => decimal_digits(code as nat) + ": Custom Response"@,
        }
    }

    /// The status line: the numeric code, a colon, and the reason phrase.
    pub fn message(&self) -> (r: String)
        ensures
            r@ == self.message_spec(),
    {
        match self {
            HttpStatus::Continue => "100: Continue".to_owned(),
            HttpStatus::SwitchingProtocols => "101: Switching Protocols".to_owned(),
            HttpStatus::Okay => "200: OK".to_owned(),
            HttpStatus::Created => "201: Created".to_owned(),
            HttpStatus::Accepted => "202: Accepted".to_owned(),
            HttpStatus::NonAuthoritativeInformation => "203: Non-Authoritative Information".to_owned(),
            HttpStatus::NoContent => "204: No Content".to_owned(),
            HttpStatus::ResetContent => "205: Reset Content".to_owned(),
            HttpStatus::PartialContent => "206: Partial Content".to_owned(),
            HttpStatus::MultipleChoices => "300: Multiple Choices".to_owned(),
            HttpStatus::MovedPermanently => "301: Moved Permanently".to_owned(),
            HttpStatus::Found => "302: Found".to_owned(),
            HttpStatus::SeeOther => "303: See Other".to_owned(),
            HttpStatus::NotModified => "304: Not Modified".to_owned(),
            HttpStatus::UseProxy => "305: Use Proxy".to_owned(),
            HttpStatus::TemporaryRedirect => "307: Temporary Redirect".to_owned(),
            HttpStatus::BadRequest => "400: Bad Request".to_owned(),
            HttpStatus::Unauthorized => "401: Unauthorized".to_owned(),
            HttpStatus::PaymentRequired => "402: Payment Required".to_owned(),
            HttpStatus::Forbidden => "403: Forbidden".to_owned(),
            HttpStatus::NotFound => "404: Not Found".to_owned(),
            HttpStatus::MethodNotAllowed => "405: Method Not Allowed".to_owned(),
            HttpStatus::NotAcceptable => "406: Not Acceptable".to_owned(),
            HttpStatus::ProxyAuthenticationRequired => "407: Proxy Authentication Required".to_owned(),
            HttpStatus::RequestTimeout => "408: Request Timeout".to_owned(),
            HttpStatus::Conflict => "409: Conflict".to_owned(),
            HttpStatus::Gone => "410: Gone".to_owned(),
            HttpStatus::LengthRequired => "411: Length Required".to_owned(),
            HttpStatus::PreconditionFailed => "412: Precondition Failed".to_owned(),
            HttpStatus::PayloadTooLarge => "413: Payload Too Large".to_owned(),
            HttpStatus::UriTooLong => "414: URI Too Long".to_owned(),
            HttpStatus::UnsupportedMediaType => "415: Unsupported Media Type".to_owned(),
            HttpStatus::RangeNotSatisfiable => "416: Range Not Satisfiable".to_owned(),
            HttpStatus::ExpectationFailed => "417: Expectation Failed".to_owned(),
            HttpStatus::UpgradeRequired => "426: Upgrade Required".to_owned(),
            HttpStatus::PreconditionRequired => "428: Precondition Required".to_owned(),
            HttpStatus::TooManyRequests => "429: Too Many Requests".to_owned(),
            HttpStatus::RequestHeaderFieldsTooLarge => "431: Request Header Fields Too Large".to_owned(),
            HttpStatus::InternalServerError => "500: Internal Server Error".to_owned(),
            HttpStatus::NotImplemented => "501: Not Implemented".to_owned(),
            HttpStatus::BadGateway => "502: Bad Gateway".to_owned(),
            HttpStatus::ServiceUnavailable => "503: Service Unavailable".to_owned(),
            HttpStatus::GatewayTimeout => "504: Gateway Timeout".to_owned(),
            HttpStatus::HttpVersionNotSupported => "505: HTTP Version Not Supported".to_owned(),
            HttpStatus::NetworkAuthenticationRequired => "511: Network Authentication Required".to_owned(),
            HttpStatus::Custom(code) => {
                let mut line = u16_decimal(*code);
                line.append(": Custom Response");
                line
            },
        }
    }
}

} // verus!
