//! The remote mod directory: endpoint addresses and the data model and
//! decision logic of its client. The outbound HTTP calls themselves are
//! made by the surrounding binary, which feeds the responses back into
//! the verified logic of [`mods`].

use crate::text::{spec_u64_dec, u64_to_string};
use vstd::prelude::*;
use vstd::string::*;

pub mod mods;

verus! {

/// Address of the fetch-by-id endpoint for a project.
pub fn mod_endpoint_url(project_id: u64) -> (s: String)
    ensures
        s@ == "https://api.curseforge.com/v1/mods/"@ + spec_u64_dec(project_id as nat),
{
    let mut s = String::from_str("https://api.curseforge.com/v1/mods/");
    let digits = u64_to_string(project_id);
    s.append(digits.as_str());
    s
}

/// Address of the batch file-fetch endpoint.
pub fn files_endpoint_url() -> (s: String)
    ensures
        s@ == "https://api.curseforge.com/v1/mods/files"@,
{
    String::from_str("https://api.curseforge.com/v1/mods/files")
}

} // verus!
