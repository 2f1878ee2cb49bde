use vstd::prelude::*;

use crate::strings::{replace_all, replace_seq};

verus! {

/// Makes an RFC 3339 datetime rendering filename-safe by replacing colons
/// with underscores, e.g. `2018-01-26T18:30:09.453+00:00` becomes
/// `2018-01-26T18_30_09.453+00_00`. The caller formats the current local
/// time; this function only rewrites the text.
pub fn fs_timestamp(rfc3339: &str) -> (r: String)
    ensures
        r@ == replace_seq(rfc3339@, ":"@, "_"@),
{
    proof {
        reveal_strlit(":");
    }
    replace_all(rfc3339, ":", "_")
}

} // verus!
