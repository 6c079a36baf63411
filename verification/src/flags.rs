//! Boolean interpretation of a spreadsheet "checkbox" cell.
//!
//! A flag cell is true exactly when its text is a case-insensitive exact
//! match of "TRUE": four characters, no surrounding whitespace. Every other
//! content, the empty string included, is falsy.

use vstd::prelude::*;

verus! {

/// A flag cell is set exactly when its text matches "TRUE" case-insensitively,
/// with nothing before or after the four letters.
pub open spec fn spec_flag_is_true(s: Seq<char>) -> bool {
    &&& s.len() == 4
    &&& (s[0] == 'T' || s[0] == 't')
    &&& (s[1] == 'R' || s[1] == 'r')
    &&& (s[2] == 'U' || s[2] == 'u')
    &&& (s[3] == 'E' || s[3] == 'e')
}

/// Reads a flag cell: true only on a case-insensitive exact match of "TRUE".
pub fn flag_is_true(s: &str) -> (b: bool)
    ensures
        b == spec_flag_is_true(s@),
{
    if s.unicode_len() != 4 {
        return false;
    }
    let c0 = s.get_char(0);
    let c1 = s.get_char(1);
    let c2 = s.get_char(2);
    let c3 = s.get_char(3);
    (c0 == 'T' || c0 == 't') && (c1 == 'R' || c1 == 'r') && (c2 == 'U' || c2 == 'u') && (c3 == 'E'
        || c3 == 'e')
}

} // verus!
