//! Small shared helpers: serde-style defaults, status classification,
//! and the health-check payload.

use vstd::prelude::*;

verus! {

/// Default used by the wire schema for boolean fields that the remote
/// directory omits when they are true.
pub fn default_true() -> (b: bool)
    ensures
        b,
{
    true
}

/// A status counts as "successful" for analytics when it is in the
/// success class (200-299) or the redirect class (300-399).
pub open spec fn spec_is_success_or_redirect(status: u16) -> bool {
    200 <= status < 400
}

/// Whether a numeric HTTP status is a success or a redirect.
pub fn is_success_or_redirect(status: u16) -> (b: bool)
    ensures
        b == spec_is_success_or_redirect(status),
{
    200 <= status && status < 400
}

/// The standardized reason phrase of a numeric HTTP status code, if
/// that code has one. The phrase is a fixed table of the code alone.
pub uninterp spec fn spec_reason_phrase(code: u16) -> Option<Seq<char>>;

/// Relies on `http::StatusCode::from_u16` and
/// `http::StatusCode::canonical_reason`: the standardized reason
/// phrase is a fixed table keyed by the numeric code alone; codes the
/// table does not list, and codes outside 100-999, have none.
#[verifier::external_body]
fn canonical_reason_of(code: u16) -> (r: Option<String>)
    ensures
        r is Some <==> spec_reason_phrase(code) is Some,
        r matches Some(s) ==> spec_reason_phrase(code) == Some(s@),
        r is None ==> code != 200 && code != 404 && code != 500,
        r matches Some(s) ==> (code == 200 ==> s@ == "OK"@) && (code == 404 ==> s@
            == "Not Found"@) && (code == 500 ==> s@ == "Internal Server Error"@),
{
    match http::StatusCode::from_u16(code) {
        Ok(status) => status.canonical_reason().map(|reason| reason.to_string()),
        Err(_) => None,
    }
}

/// The health-check payload: the response status mirrored into the
/// body, with its standardized phrase as the message.
pub struct HealthResponse {
    pub status: u16,
    pub message: Option<String>,
}

impl HealthResponse {
    /// Mirrors a numeric status into the health payload.
    pub fn from(status: u16) -> (r: HealthResponse)
        ensures
            r.status == status,
            spec_reason_phrase(status) == (match r.message {
                Some(m) => Some(m@),
                None => None::<Seq<char>>,
            }),
            status == 200 ==> (r.message matches Some(m) && m@ == "OK"@),
    {
        HealthResponse { status, message: canonical_reason_of(status) }
    }
}

} // verus!
