//! How the venue writes some fields of its payloads.

use crate::stream::lower_of;
use crate::stream::lowercase;
use vstd::prelude::*;

verus! {

/// A flag written as text: true when its first character, in lower case,
/// is `t` or `1`.
pub open spec fn spec_string_as_bool(s: Seq<char>) -> bool {
    lower_of(s).len() > 0 && (lower_of(s)[0] == 't' || lower_of(s)[0] == '1')
}

/// Reads a flag written as text, such as `"true"`, `"TRUE"` or `"1"`.
pub fn string_as_bool(s: &str) -> (r: bool)
    ensures
        r == spec_string_as_bool(s@),
{
    let lower = lowercase(s);
    if lower.as_str().unicode_len() == 0 {
        return false;
    }
    let c = lower.as_str().get_char(0);
    c == 't' || c == '1'
}

} // verus!
