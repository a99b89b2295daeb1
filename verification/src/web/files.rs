//! The file redirect route: a numeric file id is resolved through the
//! directory client, and the outcome decides between a redirect to the
//! owning project's files page, a not-found answer, and an internal
//! failure.

use crate::curseforge::mods::{DirectoryError, File, Mod};
use crate::text::{spec_contains_seq, spec_u64_dec, u64_to_string};
use vstd::prelude::*;
use vstd::string::*;

verus! {

/// What the route answers with.
pub enum HandlerResponse {
    /// A redirect-class answer towards the given target.
    Redirect(String),
    /// The entity is absent: HTTP 404.
    NotFound,
    /// The directory malfunctioned: HTTP 500.
    InternalError,
}

impl HandlerResponse {
    /// The numeric HTTP status sent with this answer. The redirect
    /// status is the see-other code the redirect layer uses.
    pub fn status(&self) -> (s: u16)
        ensures
            self is Redirect ==> s == 303,
            self is NotFound ==> s == 404,
            self is InternalError ==> s == 500,
    {
        match self {
            HandlerResponse::Redirect(_) => 303,
            HandlerResponse::NotFound => 404,
            HandlerResponse::InternalError => 500,
        }
    }
}

/// The redirect target for a file: the owning project's website page
/// with `/files/{file_id}` appended.
pub open spec fn spec_file_redirect_target(website_url: Seq<char>, file_id: u64) -> Seq<char> {
    website_url + "/files/"@ + spec_u64_dec(file_id as nat)
}

/// Builds the redirect target for `file_id` under the owning project's
/// website page.
pub fn file_redirect_target(website_url: &str, file_id: u64) -> (s: String)
    ensures
        s@ == spec_file_redirect_target(website_url@, file_id),
{
    let mut s = String::from_str(website_url);
    s.append("/files/");
    let digits = u64_to_string(file_id);
    s.append(digits.as_str());
    s
}

/// Decides the answer of `GET /f/{file_id}` from the directory
/// lookup's outcome: a known file redirects to the owning project's
/// files page, an unknown one is a plain miss, and a directory
/// malfunction is an internal failure.
pub fn file_by_id_response(file_id: u64, lookup: Result<Option<(Mod, File)>, DirectoryError>) -> (r:
    HandlerResponse)
    ensures
        lookup matches Ok(Some(pair)) ==> (r matches HandlerResponse::Redirect(t) && t@
            == spec_file_redirect_target(pair.0.links.website_url@, file_id)),
        lookup matches Ok(o) && o is None ==> r is NotFound,
        lookup is Err ==> r is InternalError,
{
    match lookup {
        Ok(Some((project, _file))) => {
            let target = file_redirect_target(project.links.website_url.as_str(), file_id);
            HandlerResponse::Redirect(target)
        },
        Ok(None) => HandlerResponse::NotFound,
        Err(_) => HandlerResponse::InternalError,
    }
}

/// The log line for a failed file lookup; it opens by naming the file
/// id that triggered the lookup.
pub open spec fn spec_lookup_error_message(file_id: u64, err: DirectoryError) -> Seq<char> {
    "error during file lookup for file "@ + spec_u64_dec(file_id as nat) + ": "@
        + err.spec_message()
}

/// Renders the log line for a failed file lookup. The line always
/// contains the decimal rendering of the file id, so the log of an
/// internal failure can be traced back to the request.
pub fn lookup_error_message(file_id: u64, err: &DirectoryError) -> (s: String)
    ensures
        s@ == spec_lookup_error_message(file_id, *err),
        spec_contains_seq(s@, spec_u64_dec(file_id as nat)),
{
    let mut s = String::from_str("error during file lookup for file ");
    let digits = u64_to_string(file_id);
    s.append(digits.as_str());
    s.append(": ");
    let detail = err.message();
    s.append(detail.as_str());
    proof {
        let prefix = "error during file lookup for file "@;
        let num = spec_u64_dec(file_id as nat);
        let i = prefix.len() as int;
        assert(s@.subrange(i, i + num.len()) =~= num);
        assert(0 <= i && i + num.len() <= s@.len() && s@.subrange(i, i + num.len()) == num);
    }
    s
}

} // verus!
