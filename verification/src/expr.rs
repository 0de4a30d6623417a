//! Detection of dynamic interpolation expressions in runner labels.
//!
//! A label such as `${{ matrix.os }}` is not a literal: it is evaluated at
//! workflow run time, so its value is unknown at analysis time. The detector
//! decides whether an entire string is a single interpolation token fenced by
//! the `${{` / `}}` delimiter pair. A string that merely contains delimiter
//! characters somewhere inside is a literal, not an expression.

use vstd::prelude::*;
use vstd::string::*;

verus! {

/// A string is a dynamic interpolation expression exactly when the whole
/// string is fenced by the delimiter pair: it opens with `${{` and closes
/// with `}}`, and the two fences do not overlap. The shortest such string is
/// `${{}}`, of length five.
pub open spec fn spec_is_expression(s: Seq<char>) -> bool {
    &&& s.len() >= 5
    &&& s[0] == '$'
    &&& s[1] == '{'
    &&& s[2] == '{'
    &&& s[s.len() - 2] == '}'
    &&& s[s.len() - 1] == '}'
}

/// Decide whether `s` is, in its entirety, a dynamic interpolation
/// expression. Malformed or partial delimiters simply classify as "not an
/// expression"; there is no error case.
pub fn is_expression(s: &str) -> (r: bool)
    ensures
        r == spec_is_expression(s@),
{
    let n = s.unicode_len();
    if n < 5 {
        return false;
    }
    let open_dollar = s.get_char(0);
    let open_one = s.get_char(1);
    let open_two = s.get_char(2);
    let close_one = s.get_char(n - 2);
    let close_two = s.get_char(n - 1);
    open_dollar == '$' && open_one == '{' && open_two == '{' && close_one == '}' && close_two
        == '}'
}

} // verus!
