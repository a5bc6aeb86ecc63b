//! Error types of the pipeline, and the table of HTTP status
//! descriptions used for user-facing failure messages.

use vstd::prelude::*;

verus! {

/// A failure while establishing the user's settings.
#[derive(Debug, Clone)]
pub enum SettingsError {
    IOError { error_desc: String },
    SerdeError { error_desc: String },
}

/// A failure surfaced to the presentation layer.
#[derive(Debug, Clone)]
pub enum UIError {
    DataError { msg: String },
    APIError { msg: String },
}

/// A fatal normalization failure: a raw field that must parse did
/// not, carrying the offending text.
#[derive(Debug, Clone)]
pub enum ParseFailure {
    Date { raw_date: String },
}

/// A classified remote-fetch failure: the HTTP status code it is
/// reported as, with its human-readable description.
#[derive(Debug, Clone)]
pub struct RequestError {
    pub http_code: u16,
    pub details: String,
}

/// The status codes that the description table covers. A code outside
/// this set has no description and must not reach the table.
pub open spec fn known_status(code: u16) -> bool {
    ||| code == 100u16
    ||| code == 101u16
    ||| code == 102u16
    ||| code == 200u16
    ||| code == 201u16
    ||| code == 202u16
    ||| code == 203u16
    ||| code == 204u16
    ||| code == 205u16
    ||| code == 206u16
    ||| code == 207u16
    ||| code == 208u16
    ||| code == 226u16
    ||| code == 300u16
    ||| code == 301u16
    ||| code == 302u16
    ||| code == 303u16
    ||| code == 304u16
    ||| code == 305u16
    ||| code == 307u16
    ||| code == 308u16
    ||| code == 400u16
    ||| code == 401u16
    ||| code == 402u16
    ||| code == 403u16
    ||| code == 404u16
    ||| code == 405u16
    ||| code == 406u16
    ||| code == 407u16
    ||| code == 408u16
    ||| code == 409u16
    ||| code == 410u16
    ||| code == 411u16
    ||| code == 412u16
    ||| code == 413u16
    ||| code == 414u16
    ||| code == 415u16
    ||| code == 416u16
    ||| code == 417u16
    ||| code == 418u16
    ||| code == 421u16
    ||| code == 422u16
    ||| code == 423u16
    ||| code == 424u16
    ||| code == 426u16
    ||| code == 428u16
    ||| code == 429u16
    ||| code == 431u16
    ||| code == 451u16
    ||| code == 500u16
    ||| code == 501u16
    ||| code == 502u16
    ||| code == 503u16
    ||| code == 504u16
    ||| code == 505u16
    ||| code == 506u16
    ||| code == 507u16
    ||| code == 508u16
    ||| code == 510u16
    ||| code == 511u16
}

/// The description belonging to each known status code.
pub open spec fn status_description(code: u16) -> Seq<char>
    recommends
        known_status(code),
{
    if code == 100u16 {
        "Continue"@
    } else if code == 101u16 {
        "Switching Protocols"@
    } else if code == 102u16 {
        "Processing"@
    } else if code == 200u16 {
        "OK"@
    } else if code == 201u16 {
        "Created"@
    } else if code == 202u16 {
        "Accepted"@
    } else if code == 203u16 {
        "Non Authoritative Information"@
    } else if code == 204u16 {
        "No Content"@
    } else if code == 205u16 {
        "Reset Content"@
    } else if code == 206u16 {
        "Partial Content"@
    } else if code == 207u16 {
        "Multi-Status"@
    } else if code == 208u16 {
        "Already Reported"@
    } else if code == 226u16 {
        "I'm Used"@
    } else if code == 300u16 {
        "Multiple Choices"@
    } else if code == 301u16 {
        "Moved Permanently"@
    } else if code == 302u16 {
        "Found"@
    } else if code == 303u16 {
        "See Other"@
    } else if code == 304u16 {
        "Not Modified"@
    } else if code == 305u16 {
        "Use Proxy"@
    } else if code == 307u16 {
        "Temporary Redirect"@
    } else if code == 308u16 {
        "Permanent Redirect"@
    } else if code == 400u16 {
        "Bad Request"@
    } else if code == 401u16 {
        "Unauthorized"@
    } else if code == 402u16 {
        "Payment Required"@
    } else if code == 403u16 {
        "Forbidden"@
    } else if code == 404u16 {
        "Not Found"@
    } else if code == 405u16 {
        "Method Not Allowed"@
    } else if code == 406u16 {
        "Not Acceptable"@
    } else if code == 407u16 {
        "Proxy Authentication Required"@
    } else if code == 408u16 {
        "Request Timeout"@
    } else if code == 409u16 {
        "Conflict"@
    } else if code == 410u16 {
        "Gone"@
    } else if code == 411u16 {
        "Length Required"@
    } else if code == 412u16 {
        "Precondition Failed"@
    } else if code == 413u16 {
        "Payload Too Large"@
    } else if code == 414u16 {
        "URI Too Long"@
    } else if code == 415u16 {
        "Unsupported Media Type"@
    } else if code == 416u16 {
        "Range Not Satisfiable"@
    } else if code == 417u16 {
        "Expectation Failed"@
    } else if code == 418u16 {
        "I'm a teapot"@
    } else if code == 421u16 {
        "Misdirected Request"@
    } else if code == 422u16 {
        "Unprocessable Entity"@
    } else if code == 423u16 {
        "Locked"@
    } else if code == 424u16 {
        "Failed Dependency"@
    } else if code == 426u16 {
        "Upgrade Required"@
    } else if code == 428u16 {
        "Precondition Required"@
    } else if code == 429u16 {
        "Too Many Requests"@
    } else if code == 431u16 {
        "Request Header Fields Too Large"@
    } else if code == 451u16 {
        "Unavailable For Legal Reasons"@
    } else if code == 500u16 {
        "Internal Server Error"@
    } else if code == 501u16 {
        "Not Implemented"@
    } else if code == 502u16 {
        "Bad Gateway"@
    } else if code == 503u16 {
        "Service Unavailable"@
    } else if code == 504u16 {
        "Gateway Timeout"@
    } else if code == 505u16 {
        "HTTP Version Not Supported"@
    } else if code == 506u16 {
        "Variant Also Negotiates"@
    } else if code == 507u16 {
        "Insufficient Storage"@
    } else if code == 508u16 {
        "Loop Detected"@
    } else if code == 510u16 {
        "Not Extended"@
    } else {
        "Network Authentication Required"@
    }
}

/// Decides whether a status code is in the description table's known
/// set, so callers can test before asking for a description.
pub fn is_known_status(code: u16) -> (r: bool)
    ensures
        r == known_status(code),
{
    (100 <= code && code <= 102) || (200 <= code && code <= 208) || code == 226 || (300 <= code
        && code <= 305) || code == 307 || code == 308 || (400 <= code && code <= 418) || (421
        <= code && code <= 424) || code == 426 || code == 428 || code == 429 || code == 431
        || code == 451 || (500 <= code && code <= 508) || code == 510 || code == 511
}

/// Looks up the human-readable description of a known status code.
/// An unknown code has no entry, so callers must stay inside the
/// known set.
pub fn get_http_status_description(status_code: u16) -> (r: String)
    requires
        known_status(status_code),
    ensures
        r@ == status_description(status_code),
{
    if status_code == 100 {
        "Continue".to_owned()
    } else if status_code == 101 {
        "Switching Protocols".to_owned()
    } else if status_code == 102 {
        "Processing".to_owned()
    } else if status_code == 200 {
        "OK".to_owned()
    } else if status_code == 201 {
        "Created".to_owned()
    } else if status_code == 202 {
        "Accepted".to_owned()
    } else if status_code == 203 {
        "Non Authoritative Information".to_owned()
    } else if status_code == 204 {
        "No Content".to_owned()
    } else if status_code == 205 {
        "Reset Content".to_owned()
    } else if status_code == 206 {
        "Partial Content".to_owned()
    } else if status_code == 207 {
        "Multi-Status".to_owned()
    } else if status_code == 208 {
        "Already Reported".to_owned()
    } else if status_code == 226 {
        "I'm Used".to_owned()
    } else if status_code == 300 {
        "Multiple Choices".to_owned()
    } else if status_code == 301 {
        "Moved Permanently".to_owned()
    } else if status_code == 302 {
        "Found".to_owned()
    } else if status_code == 303 {
        "See Other".to_owned()
    } else if status_code == 304 {
        "Not Modified".to_owned()
    } else if status_code == 305 {
        "Use Proxy".to_owned()
    } else if status_code == 307 {
        "Temporary Redirect".to_owned()
    } else if status_code == 308 {
        "Permanent Redirect".to_owned()
    } else if status_code == 400 {
        "Bad Request".to_owned()
    } else if status_code == 401 {
        "Unauthorized".to_owned()
    } else if status_code == 402 {
        "Payment Required".to_owned()
    } else if status_code == 403 {
        "Forbidden".to_owned()
    } else if status_code == 404 {
        "Not Found".to_owned()
    } else if status_code == 405 {
        "Method Not Allowed".to_owned()
    } else if status_code == 406 {
        "Not Acceptable".to_owned()
    } else if status_code == 407 {
        "Proxy Authentication Required".to_owned()
    } else if status_code == 408 {
        "Request Timeout".to_owned()
    } else if status_code == 409 {
        "Conflict".to_owned()
    } else if status_code == 410 {
        "Gone".to_owned()
    } else if status_code == 411 {
        "Length Required".to_owned()
    } else if status_code == 412 {
        "Precondition Failed".to_owned()
    } else if status_code == 413 {
        "Payload Too Large".to_owned()
    } else if status_code == 414 {
        "URI Too Long".to_owned()
    } else if status_code == 415 {
        "Unsupported Media Type".to_owned()
    } else if status_code == 416 {
        "Range Not Satisfiable".to_owned()
    } else if status_code == 417 {
        "Expectation Failed".to_owned()
    } else if status_code == 418 {
        "I'm a teapot".to_owned()
    } else if status_code == 421 {
        "Misdirected Request".to_owned()
    } else if status_code == 422 {
        "Unprocessable Entity".to_owned()
    } else if status_code == 423 {
        "Locked".to_owned()
    } else if status_code == 424 {
        "Failed Dependency".to_owned()
    } else if status_code == 426 {
        "Upgrade Required".to_owned()
    } else if status_code == 428 {
        "Precondition Required".to_owned()
    } else if status_code == 429 {
        "Too Many Requests".to_owned()
    } else if status_code == 431 {
        "Request Header Fields Too Large".to_owned()
    } else if status_code == 451 {
        "Unavailable For Legal Reasons".to_owned()
    } else if status_code == 500 {
        "Internal Server Error".to_owned()
    } else if status_code == 501 {
        "Not Implemented".to_owned()
    } else if status_code == 502 {
        "Bad Gateway".to_owned()
    } else if status_code == 503 {
        "Service Unavailable".to_owned()
    } else if status_code == 504 {
        "Gateway Timeout".to_owned()
    } else if status_code == 505 {
        "HTTP Version Not Supported".to_owned()
    } else if status_code == 506 {
        "Variant Also Negotiates".to_owned()
    } else if status_code == 507 {
        "Insufficient Storage".to_owned()
    } else if status_code == 508 {
        "Loop Detected".to_owned()
    } else if status_code == 510 {
        "Not Extended".to_owned()
    } else {
        "Network Authentication Required".to_owned()
    }
}

impl RequestError {
    /// Classifies a fetch failure under a known status code, pairing
    /// it with its description.
    pub fn new(status_code: u16) -> (r: RequestError)
        requires
            known_status(status_code),
        ensures
            r.http_code == status_code,
            r.details@ == status_description(status_code),
    {
        RequestError { http_code: status_code, details: get_http_status_description(status_code) }
    }
}

impl From<RequestError> for UIError {
    /// A request failure surfaces to the presentation layer with its
    /// description as the message.
    fn from(error: RequestError) -> (r: UIError) {
        UIError::APIError { msg: error.details }
    }
}

impl vstd::std_specs::convert::FromSpecImpl<RequestError> for UIError {
    open spec fn obeys_from_spec() -> bool {
        true
    }

    open spec fn from_spec(error: RequestError) -> UIError {
        UIError::APIError { msg: error.details }
    }
}

} // verus!
