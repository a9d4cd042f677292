//! The root-privilege decision: whether the output of `id -u`, once its
//! surrounding whitespace is removed, is exactly `0`.

use vstd::prelude::*;
use vstd::string::StrSliceExecFns;

use crate::text::trim_bounds;
use crate::text::trim_chars;

verus! {

/// Whether `id_output` (what `id -u` printed) names the root user: its
/// characters, with surrounding whitespace removed, are exactly `0`.
pub open spec fn spec_is_root(id_output: Seq<char>) -> bool {
    trim_chars(id_output) == seq!['0']
}

/// Decides root privilege from the output of `id -u`.
pub fn is_root(id_output: &str) -> (r: bool)
    ensures
        r == spec_is_root(id_output@),
{
    let (start, end) = trim_bounds(id_output);
    let r = end - start == 1 && id_output.get_char(start) == '0';
    proof {
        let trimmed = id_output@.subrange(start as int, end as int);
        if r {
            assert(trimmed =~= seq!['0']);
        } else {
            if trimmed == seq!['0'] {
                assert(trimmed.len() == 1);
                assert(trimmed[0] == '0');
            }
        }
    }
    r
}

} // verus!
