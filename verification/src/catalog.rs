//! The version catalog: what the remote package index publishes. The index's
//! payload is an ordered list of version strings, assumed ascending, so the
//! latest published version is the last element.

use vstd::prelude::*;
use vstd::string::StringExecFns;

use crate::error::FsacError;

verus! {

/// The fixed endpoint that enumerates the published package versions.
pub open spec fn spec_index_url() -> Seq<char> {
    "https://api.nuget.org/v3-flatcontainer/fsautocomplete/index.json"@
}

/// The URL the catalog is fetched from.
pub fn index_url() -> (r: String)
    ensures
        r@ == spec_index_url(),
{
    String::from_str("https://api.nuget.org/v3-flatcontainer/fsautocomplete/index.json")
}

/// Picks the latest published version out of the index's list: the last
/// element. An empty list means the package has no published versions at all.
pub fn latest_version(versions: &Vec<String>) -> (r: Result<String, FsacError>)
    ensures
        match r {
            Ok(v) => versions@.len() > 0 && v@ == versions@.last()@,
            Err(e) => versions@.len() == 0 && e is NotFound,
        },
{
    if versions.len() == 0 {
        Err(FsacError::NotFound)
    } else {
        Ok(versions[versions.len() - 1].clone())
    }
}

} // verus!
