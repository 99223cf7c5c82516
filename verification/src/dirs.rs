use vstd::prelude::*;
use crate::text::str_eq;

verus! {

/// What the directory-existence check reads of one directory entry: its
/// name and whether it is itself a directory.
pub struct DirEntryInfo {
    pub name: String,
    pub is_dir: bool,
}

/// The listed entries hold a directory of the given name.
pub open spec fn spec_has_dir(entries: Seq<DirEntryInfo>, name: Seq<char>) -> bool {
    exists|k: int| 0 <= k < entries.len() && entries[k].is_dir && entries[k].name@ == name
}

/// The pure half of the directory-existence check: scans the entries read
/// from a directory for a subdirectory of the given name.
pub fn dir_in_entries(entries: &Vec<DirEntryInfo>, dir_name: &str) -> (r: bool)
    ensures
        r == spec_has_dir(entries@, dir_name@),
{
    let n = entries.len();
    let mut k: usize = 0;
    while k < n
        invariant
            k <= n,
            n == entries@.len(),
            forall|m: int|
                0 <= m < k ==> !(entries@[m].is_dir && entries@[m].name@ == dir_name@),
        decreases n - k,
    {
        let e = &entries[k];
        if e.is_dir && str_eq(e.name.as_str(), dir_name) {
            return true;
        }
        k = k + 1;
    }
    false
}

} // verus!
