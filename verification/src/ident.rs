//! The identifier generator: random 128-bit keys in their canonical text.

use vstd::prelude::*;

verus! {

/// A decimal digit or one of the letters `a` to `f`.
pub open spec fn is_lower_hex(c: char) -> bool {
    ('0' <= c && c <= '9') || ('a' <= c && c <= 'f')
}

/// The four places of the canonical text that hold a hyphen.
pub open spec fn is_hyphen_place(i: int) -> bool {
    i == 8 || i == 13 || i == 18 || i == 23
}

/// The canonical text of a random identifier: 36 characters in the groups
/// 8-4-4-4-12, lower-case hexadecimal digits between hyphens, whose third
/// group starts with the version digit `4` and whose fourth group starts
/// with one of the variant digits `8`, `9`, `a`, `b`.
pub open spec fn is_canonical_id(text: Seq<char>) -> bool {
    &&& text.len() == 36
    &&& forall|i: int|
        0 <= i < 36 ==> if is_hyphen_place(i) {
            #[trigger] text[i] == '-'
        } else {
            is_lower_hex(text[i])
        }
    &&& text[14] == '4'
    &&& (text[19] == '8' || text[19] == '9' || text[19] == 'a' || text[19] == 'b')
}

/// `Uuid::new_v4`, printed with `to_string`. The identifier is random, so the
/// contract claims only the shape that every such text has.
#[verifier::external_body]
pub(crate) fn random_id_text() -> (id: String)
    ensures
        is_canonical_id(id@),
{
    uuid::Uuid::new_v4().to_string()
}

/// A fresh identifier. Two calls are not related by any contract: that they
/// differ is a matter of chance, not of proof.
pub fn new_id() -> (id: String)
    ensures
        is_canonical_id(id@),
{
    random_id_text()
}

} // verus!
