//! The identifier generator.
//!
//! New objects are filed under short random identifiers drawn from a
//! URL- and filename-safe alphabet, long enough that collisions are
//! negligible at the store's expected size.  Generation is side-effect-free
//! and never consults the store.

use vstd::prelude::*;

verus! {

/// Every generated identifier has exactly this many characters.
pub const ID_LENGTH: usize = 21;

/// The characters an identifier may contain: letters, digits, `_` and `-`.
pub open spec fn id_char(c: char) -> bool {
    ||| c == '_'
    ||| c == '-'
    ||| ('0' <= c && c <= '9')
    ||| ('a' <= c && c <= 'z')
    ||| ('A' <= c && c <= 'Z')
}

/// What the store accepts as one of its own identifiers: [`ID_LENGTH`]
/// characters, each from the URL-safe alphabet.
pub open spec fn valid_id(s: Seq<char>) -> bool {
    &&& s.len() == ID_LENGTH
    &&& forall|i: int| 0 <= i < s.len() ==> id_char(#[trigger] s[i])
}

/// Relies on `nanoid::format` with the crate's default URL-safe alphabet
/// (`A-Za-z0-9_-`) and its default operating-system random source: the
/// result holds exactly the requested number of characters and every one of
/// them comes from that alphabet.  The draw is random, so nothing more is
/// promised of the value.  Public so that a transport binding with a store
/// of its own files objects under identifiers this same guarantee governs.
#[verifier::external_body]
pub fn generate_id() -> (id: String)
    ensures
        valid_id(id@),
{
    nanoid::format(nanoid::rngs::default, &nanoid::alphabet::SAFE, ID_LENGTH)
}

} // verus!
