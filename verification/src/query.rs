//! Search-query text: the page treats a query that trims to nothing as no
//! query at all.

use vstd::prelude::*;

use vstd::string::StrSliceExecFns;

verus! {

/// Whether `c` has Unicode's `White_Space` property; these are the
/// characters that trimming a string removes.
pub open spec fn is_space_char(c: char) -> bool {
    let u = c as u32;
    ||| 0x0009 <= u <= 0x000D
    ||| u == 0x0020
    ||| u == 0x0085
    ||| u == 0x00A0
    ||| u == 0x1680
    ||| 0x2000 <= u <= 0x200A
    ||| u == 0x2028
    ||| u == 0x2029
    ||| u == 0x202F
    ||| u == 0x205F
    ||| u == 0x3000
}

/// Whether `s` is empty or all whitespace, i.e. trims to the empty string.
pub open spec fn is_blank(s: Seq<char>) -> bool {
    forall|i: int| 0 <= i < s.len() ==> is_space_char(s[i])
}

/// Whether `c` is whitespace.
pub fn space_char(c: char) -> (r: bool)
    ensures
        r == is_space_char(c),
{
    let u = c as u32;
    (0x0009 <= u && u <= 0x000D) || u == 0x0020 || u == 0x0085 || u == 0x00A0 || u == 0x1680 || (
    0x2000 <= u && u <= 0x200A) || u == 0x2028 || u == 0x2029 || u == 0x202F || u == 0x205F || u
        == 0x3000
}

/// Whether `text` trims to the empty string.
pub fn text_is_blank(text: &String) -> (r: bool)
    ensures
        r == is_blank(text@),
{
    let s = text.as_str();
    let n = s.unicode_len();
    for i in 0..n
        invariant
            s@ == text@,
            n == text@.len(),
            forall|j: int| 0 <= j < i ==> is_space_char(text@[j]),
    {
        if !space_char(s.get_char(i)) {
            return false;
        }
    }
    true
}

} // verus!
