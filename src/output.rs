//! Text helpers of the command-line output.

use vstd::prelude::*;

verus! {

/// Whether Unicode classes `c` as alphabetic or numeric.
pub uninterp spec fn alphanumeric(c: char) -> bool;

/// Relies on char::is_alphanumeric, which std documents as Alphabetic or
/// Numeric; ASCII letters and digits are both.
#[verifier::external_body]
fn is_alphanumeric(c: char) -> (r: bool)
    ensures
        r == alphanumeric(c),
        ('a' <= c <= 'z' || 'A' <= c <= 'Z' || '0' <= c <= '9') ==> r,
{
    c.is_alphanumeric()
}

/// Relies on `String: FromIterator<char>`: the characters in their order.
#[verifier::external_body]
pub(crate) fn string_of_chars(v: &Vec<char>) -> (r: String)
    ensures
        r@ == v@,
{
    v.iter().collect()
}

/// The character a task name keeps: itself if alphanumeric or `_`, else `_`.
pub open spec fn safe_char(c: char) -> char {
    if alphanumeric(c) || c == '_' { c } else { '_' }
}

/// A task name with every character that is not alphanumeric or `_`
/// replaced by `_`.
pub fn sanitize_task_name(name: &str) -> (r: String)
    ensures
        r@.len() == name@.len(),
        forall|i: int| 0 <= i < name@.len() ==> #[trigger] r@[i] == safe_char(name@[i]),
{
    let n = name.unicode_len();
    let mut out: Vec<char> = Vec::new();
    let mut i: usize = 0;
    while i < n
        invariant
            n == name@.len(),
            i <= n,
            out@.len() == i,
            forall|k: int| 0 <= k < i ==> #[trigger] out@[k] == safe_char(name@[k]),
        decreases n - i,
    {
        let c = name.get_char(i);
        let keep = is_alphanumeric(c) || c == '_';
        out.push(if keep { c } else { '_' });
        i = i + 1;
    }
    string_of_chars(&out)
}

} // verus!
