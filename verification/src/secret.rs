//! The process secret: one random identifier, generated once, never mutated.

use vstd::prelude::*;

verus! {

/// A lowercase hexadecimal digit, the only characters allowed between the
/// hyphens of the canonical textual form.
pub open spec fn is_lower_hex_digit(c: char) -> bool {
    ('0' <= c && c <= '9') || ('a' <= c && c <= 'f')
}

/// The positions that hold a hyphen in the canonical 8-4-4-4-12 layout.
pub open spec fn is_hyphen_position(i: int) -> bool {
    i == 8 || i == 13 || i == 18 || i == 23
}

/// The canonical hyphenated textual form of a 128-bit identifier:
/// 32 lowercase hexadecimal digits in groups of 8-4-4-4-12, separated by
/// hyphens, 36 characters in all.
pub open spec fn is_canonical_secret(s: Seq<char>) -> bool {
    &&& s.len() == 36
    &&& forall|i: int| 0 <= i < s.len() && is_hyphen_position(i) ==> #[trigger] s[i] == '-'
    &&& forall|i: int|
        0 <= i < s.len() && !is_hyphen_position(i) ==> is_lower_hex_digit(#[trigger] s[i])
}

/// Decides whether a string has the canonical hyphenated layout.
pub fn is_canonical_text(s: &str) -> (b: bool)
    ensures
        b == is_canonical_secret(s@),
{
    let n = s.unicode_len();
    if n != 36 {
        return false;
    }
    let mut i: usize = 0;
    while i < 36
        invariant
            0 <= i <= 36,
            s@.len() == 36,
            forall|j: int| 0 <= j < i && is_hyphen_position(j) ==> #[trigger] s@[j] == '-',
            forall|j: int|
                0 <= j < i && !is_hyphen_position(j) ==> is_lower_hex_digit(#[trigger] s@[j]),
        decreases 36 - i,
    {
        let c = s.get_char(i);
        if i == 8 || i == 13 || i == 18 || i == 23 {
            if c != '-' {
                return false;
            }
        } else {
            if !(('0' <= c && c <= '9') || ('a' <= c && c <= 'f')) {
                return false;
            }
        }
        i = i + 1;
    }
    true
}

/// Relies on `uuid::Uuid::new_v4` and `uuid::fmt::Hyphenated`: a freshly
/// generated random version-4 UUID, rendered as 32 lowercase hexadecimal
/// digits in the hyphenated 8-4-4-4-12 layout. The value is random, so
/// nothing is promised beyond the layout.
#[verifier::external_body]
fn random_hyphenated_id() -> (r: String)
    ensures
        is_canonical_secret(r@),
{
    uuid::Uuid::new_v4().as_hyphenated().to_string()
}

/// The shared, immutable state of the server: the one process secret in
/// its canonical textual form.
#[derive(Clone, Debug)]
pub struct State {
    pub secret: String,
}

impl State {
    /// Generates the process secret. Called once at startup; the value is
    /// never mutated afterwards.
    pub fn new() -> (s: State)
        ensures
            is_canonical_secret(s.secret@),
    {
        State { secret: random_hyphenated_id() }
    }
}

} // verus!
