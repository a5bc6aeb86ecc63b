//! Remote-fetch policy: building and vetting the request URL,
//! classifying what the transport hands back, and deciding between a
//! fresh payload and the cache fallback. The transport itself stays
//! with the caller; every decision is made here.

use vstd::prelude::*;

use crate::errors::{known_status, status_description, RequestError};
use crate::text::{seq_contains, str_contains};

verus! {

/// The classified outcome of one fetch attempt: genuinely fresh data,
/// or a failure class under which the cache must be consulted.
#[derive(Debug)]
pub enum FetchOutcome {
    Fresh { body: String },
    FallbackNeeded { status: u16 },
}

/// What the transport layer hands back: a response with its status
/// and body, or a transport-level failure (DNS, connection, timeout).
#[derive(Debug)]
pub enum FetchEvent {
    TransportFailure,
    Response { status: u16, body: String },
}

/// The provider's unresolvable-location sentinel: a success response
/// whose body carries this text is a semantic failure, not data.
pub open spec fn sentinel_text() -> Seq<char> {
    "Unknown location; please try"@
}

/// The request URL for a location identifier.
pub open spec fn url_of(zip: Seq<char>) -> Seq<char> {
    "http://wttr.in/"@ + zip + "?format=j1"@
}

/// Whether a string parses as a URL.
pub uninterp spec fn url_accepts(s: Seq<char>) -> bool;

/// Relies on url::Url::parse (the parser reqwest re-exports as
/// reqwest::Url): whether a string parses as a URL depends on the
/// string alone.
#[verifier::external_body]
fn url_parse_ok(s: &str) -> (r: bool)
    ensures
        r == url_accepts(s@),
{
    url::Url::parse(s).is_ok()
}

/// Builds the request URL for a location. A location that does not
/// yield a parseable URL is an immediate not-found fallback, before
/// any network call.
pub fn build_request_url(zip_code: &str) -> (r: Result<String, FetchOutcome>)
    ensures
        r matches Ok(u) ==> u@ == url_of(zip_code@) && url_accepts(url_of(zip_code@)),
        r is Err <==> !url_accepts(url_of(zip_code@)),
        r matches Err(o) ==> (o matches FetchOutcome::FallbackNeeded { status } && status == 404),
{
    let raw_url = "http://wttr.in/".to_owned().concat(zip_code).concat("?format=j1");
    proof {
        assert(raw_url@ =~= url_of(zip_code@));
    }
    if url_parse_ok(raw_url.as_str()) {
        Ok(raw_url)
    } else {
        Err(FetchOutcome::FallbackNeeded { status: 404 })
    }
}

/// Classifies a transport response: a success status with a clean
/// body is fresh data; a success body carrying the provider's
/// unknown-location sentinel falls back as too-many-requests; any
/// other status falls back under its own code.
pub fn classify_response(status: u16, body: String) -> (r: FetchOutcome)
    ensures
        status == 200 && !seq_contains(body@, sentinel_text()) ==> (r
            matches FetchOutcome::Fresh { body: b } && b@ == body@),
        status == 200 && seq_contains(body@, sentinel_text()) ==> (r
            matches FetchOutcome::FallbackNeeded { status: st } && st == 429),
        status != 200 ==> (r matches FetchOutcome::FallbackNeeded { status: st } && st == status),
{
    if status == 200 {
        if str_contains(body.as_str(), "Unknown location; please try") {
            FetchOutcome::FallbackNeeded { status: 429 }
        } else {
            FetchOutcome::Fresh { body }
        }
    } else {
        FetchOutcome::FallbackNeeded { status }
    }
}

/// Classifies a whole fetch event: a transport-level failure falls
/// back as a gateway timeout; a response is classified by its status
/// and body.
pub fn classify_fetch_event(event: FetchEvent) -> (r: FetchOutcome)
    ensures
        event is TransportFailure ==> (r matches FetchOutcome::FallbackNeeded { status } && status
            == 504),
        event matches FetchEvent::Response { status, body } ==> ({
            &&& status == 200 && !seq_contains(body@, sentinel_text()) ==> (r
                matches FetchOutcome::Fresh { body: b } && b@ == body@)
            &&& status == 200 && seq_contains(body@, sentinel_text()) ==> (r
                matches FetchOutcome::FallbackNeeded { status: st } && st == 429)
            &&& status != 200 ==> (r matches FetchOutcome::FallbackNeeded { status: st } && st
                == status)
        }),
{
    match event {
        FetchEvent::TransportFailure => FetchOutcome::FallbackNeeded { status: 504 },
        FetchEvent::Response { status, body } => classify_response(status, body),
    }
}

/// Decides the fallback: a cached payload is used as the data source,
/// and only when none exists does the pipeline fail — reporting the
/// fetch's own failure classification, never a cache error.
pub fn resolve_fallback(reason: u16, cached: Option<String>) -> (r: Result<String, RequestError>)
    requires
        known_status(reason),
    ensures
        cached matches Some(s) ==> r == Ok::<String, RequestError>(s),
        cached is None ==> (r matches Err(e) && e.http_code == reason && e.details@
            == status_description(reason)),
    {
    match cached {
        Some(s) => Ok(s),
        None => Err(RequestError::new(reason)),
    }
}

} // verus!
