//! What the scheduler takes from its surroundings: fresh identifiers and the clock.

use vstd::arithmetic::power::pow;
use vstd::prelude::*;

use crate::types::{TaskId, Timestamp};

verus! {

/// Relies on uuid::Uuid::new_v4: a random identifier, of which nothing is promised.
#[verifier::external_body]
pub(crate) fn new_id() -> (r: TaskId) {
    uuid::Uuid::new_v4().as_u128()
}

/// Relies on chrono::Utc::now: the current time in milliseconds, of which nothing is promised.
#[verifier::external_body]
pub(crate) fn now_millis() -> (r: Timestamp) {
    chrono::Utc::now().timestamp_millis()
}

/// The lower-case hexadecimal digit of `d` (0 to 15).
pub open spec fn hex_char(d: int) -> char {
    if d < 10 { (('0' as int) + d) as char } else { (('a' as int) + d - 10) as char }
}

/// Digit `k` (0 the most significant) of the 32 hexadecimal digits of `id`.
pub open spec fn hex_digit(id: TaskId, k: int) -> int {
    (id as int / pow(16, (31 - k) as nat)) % 16
}

/// Which hexadecimal digit position `i` of the hyphenated text shows.
pub open spec fn digit_at(i: int) -> int {
    if i < 8 { i } else if i < 13 { i - 1 } else if i < 18 { i - 2 } else if i < 23 { i - 3 } else { i - 4 }
}

/// The hyphenated lower-case text of an identifier: its 32 hexadecimal
/// digits in groups of 8, 4, 4, 4 and 12, separated by `-`.
pub open spec fn id_text(id: TaskId) -> Seq<char> {
    Seq::new(36, |i: int| if i == 8 || i == 13 || i == 18 || i == 23 { '-' } else { hex_char(hex_digit(id, digit_at(i))) })
}

/// Relies on uuid::Uuid's `Display`: the hyphenated lower-case form.
#[verifier::external_body]
pub(crate) fn id_to_string(id: TaskId) -> (r: String)
    ensures
        r@ == id_text(id),
        r@.len() == 36,
{
    uuid::Uuid::from_u128(id).to_string()
}

} // verus!
