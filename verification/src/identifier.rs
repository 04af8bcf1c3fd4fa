//! Names for the files of the secondary tier.
//!
//! The names are random version-4 UUIDs from the `uuid` crate. Which one
//! comes back is left open; only its written form is stated, and that on
//! trust from the crate's source.

use uuid::Uuid;
use vstd::prelude::*;

verus! {

/// A digit of lower-case hexadecimal notation.
pub open spec fn lower_hex(c: char) -> bool {
    ('0' <= c && c <= '9') || ('a' <= c && c <= 'f')
}

/// The places at which the written form of a UUID has a hyphen.
pub open spec fn hyphen_at(i: int) -> bool {
    i == 8 || i == 13 || i == 18 || i == 23
}

/// The written form of a UUID: 36 characters, lower-case hexadecimal digits
/// in five groups of 8, 4, 4, 4 and 12 with a hyphen between two groups.
pub open spec fn hyphenated(s: Seq<char>) -> bool {
    &&& s.len() == 36
    &&& forall|i: int|
        0 <= i < 36 ==> if hyphen_at(i) {
            #[trigger] s[i] == '-'
        } else {
            lower_hex(s[i])
        }
}

/// `Uuid::new_v4` followed by `to_string`: a random identifier in hyphenated
/// form. Two calls need not agree. The call panics where the operating
/// system hands out no random bytes.
#[verifier::external_body]
pub(crate) fn fresh_identifier() -> (identifier: String)
    ensures
        hyphenated(identifier@),
{
    Uuid::new_v4().to_string()
}

} // verus!
