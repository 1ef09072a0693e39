//! Finding the file of one crate version in the registry's metadata.
use vstd::prelude::*;

use crate::text::{concat, str_eq};

verus! {

/// The index of the first version numbered `version`, if any.
pub open spec fn first_version_index(versions: Seq<(String, String)>, version: Seq<char>) -> Option<int> {
    if exists|i: int| 0 <= i < versions.len() && versions[i].0@ == version {
        Some(
            choose|i: int|
                0 <= i < versions.len() && versions[i].0@ == version && forall|j: int|
                    0 <= j < i ==> versions[j].0@ != version,
        )
    } else {
        None
    }
}

/// The download path of `version`, given the crate's versions as pairs of
/// version number and download path; the first match wins.
pub fn find_download_path(versions: &Vec<(String, String)>, version: &str) -> (r: Option<String>)
    ensures
        match first_version_index(versions@, version@) {
            None => r is None,
            Some(i) => r matches Some(p) && p@ == versions@[i].1@,
        },
{
    let mut i: usize = 0;
    while i < versions.len()
        invariant
            i <= versions@.len(),
            forall|j: int| 0 <= j < i ==> versions@[j].0@ != version@,
        decreases versions@.len() - i,
    {
        if str_eq(versions[i].0.as_str(), version) {
            let ghost k = choose|k: int|
                0 <= k < versions@.len() && versions@[k].0@ == version@ && forall|j: int|
                    0 <= j < k ==> versions@[j].0@ != version@;
            assert(k == i) by {
                if k > i {
                    assert(versions@[i as int].0@ == version@);
                }
            }
            return Some(versions[i].1.clone());
        }
        i = i + 1;
    }
    None
}

/// The body of the 404 returned when the crate has no such version.
pub fn missing_version_message(crate_name: &str, version: &str) -> (r: String)
    ensures
        r@ == "Error encountered finding version "@ + version@ + " of crate "@ + crate_name@
            + " in crate info"@,
{
    let mut r = concat("Error encountered finding version ", version);
    r.append(" of crate ");
    r.append(crate_name);
    r.append(" in crate info");
    r
}

} // verus!
