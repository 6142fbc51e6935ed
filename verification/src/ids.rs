//! Short opaque identifiers for new pastes: a fixed-length string drawn
//! uniformly from the alphanumeric alphabet. No uniqueness check is made
//! here; a colliding insert is the store's to refuse.

use vstd::prelude::*;
use crate::text::{chars_of_ascii, string_from_ascii};

verus! {

/// An ASCII alphanumeric byte: a digit, an upper-case or a lower-case letter.
pub open spec fn is_id_byte(b: u8) -> bool {
    (48 <= b <= 57) || (65 <= b <= 90) || (97 <= b <= 122)
}

/// An identifier character, so that the separator joining an id to a key in
/// a sharing link can never occur inside the id itself.
pub open spec fn is_id_char(c: char) -> bool {
    ('0' <= c <= '9') || ('A' <= c <= 'Z') || ('a' <= c <= 'z')
}

/// Relies on rand's `Alphanumeric` distribution over `thread_rng`: one byte
/// drawn uniformly from `[0-9A-Za-z]`. Randomness allows no more to be said
/// of the value.
#[verifier::external_body]
fn sample_alphanumeric() -> (b: u8)
    ensures
        is_id_byte(b),
{
    rand::Rng::sample(&mut rand::thread_rng(), rand::distributions::Alphanumeric)
}

/// Every identifier is exactly this many characters long.
pub const ID_LENGTH: usize = 8;

/// Produce a fresh opaque identifier: `ID_LENGTH` uniform alphanumeric
/// characters.
pub fn generate_id() -> (r: String)
    ensures
        r@.len() == ID_LENGTH,
        forall|i: int| 0 <= i < r@.len() ==> is_id_char(#[trigger] r@[i]),
{
    let mut buf: Vec<u8> = Vec::new();
    let mut i: usize = 0;
    while i < ID_LENGTH
        invariant
            i <= ID_LENGTH,
            buf@.len() == i,
            forall|j: int| 0 <= j < buf@.len() ==> is_id_byte(#[trigger] buf@[j]),
        decreases ID_LENGTH - i,
    {
        buf.push(sample_alphanumeric());
        i = i + 1;
    }
    let r = string_from_ascii(buf);
    proof {
        assert(forall|j: int| 0 <= j < r@.len() ==> is_id_char(#[trigger] r@[j]));
    }
    r
}

} // verus!
