//! Fresh identifiers for newly created entities.

use vstd::prelude::*;

verus! {

/// Whether `c` is a decimal digit or one of the letters `a` to `f`.
pub open spec fn is_lower_hex(c: char) -> bool {
    ('0' as u32 <= c as u32 <= '9' as u32) || ('a' as u32 <= c as u32 <= 'f' as u32)
}

/// Whether `index` is one of the four places where a hyphen separates the
/// groups of an identifier.
pub open spec fn is_hyphen_place(index: int) -> bool {
    index == 8 || index == 13 || index == 18 || index == 23
}

/// The shape of a generated identifier: thirty-six characters, lower-case
/// hexadecimal digits in five groups separated by hyphens.
pub open spec fn is_hyphenated_hex(id: Seq<char>) -> bool {
    &&& id.len() == 36
    &&& forall|i: int|
        0 <= i < 36 ==> if is_hyphen_place(i) {
            #[trigger] id[i] == '-'
        } else {
            is_lower_hex(id[i])
        }
}

/// Draws a random identifier with `uuid::Uuid::new_v4` and renders it with the
/// `Display` of `Uuid`, which is the hyphenated lower-case form. The value is
/// random, so the contract states only that shape.
#[verifier::external_body]
pub(crate) fn fresh_id() -> (id: String)
    ensures
        is_hyphenated_hex(id@),
{
    uuid::Uuid::new_v4().to_string()
}

} // verus!
