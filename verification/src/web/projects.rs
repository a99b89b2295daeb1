//! The project redirect route: a numeric project id maps to a fixed,
//! statically-templated page on the mod directory. No remote lookup is
//! involved.

use crate::text::{spec_u64_dec, u64_to_string};
use vstd::prelude::*;
use vstd::string::*;

verus! {

/// The fixed template with the project id substituted.
pub open spec fn spec_project_redirect_target(project_id: u64) -> Seq<char> {
    "https://curseforge.com/projects/"@ + spec_u64_dec(project_id as nat)
}

/// Redirect target for `GET /{project_id}`: the fixed template with the
/// id substituted, for every valid unsigned id, independent of any
/// directory state.
pub fn project_redirect_target(project_id: u64) -> (s: String)
    ensures
        s@ == spec_project_redirect_target(project_id),
{
    let mut s = String::from_str("https://curseforge.com/projects/");
    let digits = u64_to_string(project_id);
    s.append(digits.as_str());
    s
}

} // verus!
