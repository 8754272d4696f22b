//! Fresh random identifiers, from the uuid crate.
use vstd::prelude::*;

verus! {

/// Whether `c` is a lower-case hexadecimal digit.
pub open spec fn is_lower_hex(c: char) -> bool {
    ('0' <= c <= '9') || ('a' <= c <= 'f')
}

/// Whether `s` is the hyphenated text of a random (version 4, RFC variant)
/// UUID: 36 characters, hyphens at positions 8, 13, 18 and 23, lower-case hex
/// digits elsewhere, the version digit `4` at position 14 and a variant digit
/// among `8`, `9`, `a`, `b` at position 19.
pub open spec fn is_uuid_v4_text(s: Seq<char>) -> bool {
    &&& s.len() == 36
    &&& forall|i: int|
        0 <= i < 36 ==> if i == 8 || i == 13 || i == 18 || i == 23 {
            #[trigger] s[i] == '-'
        } else {
            is_lower_hex(s[i])
        }
    &&& s[14] == '4'
    &&& (s[19] == '8' || s[19] == '9' || s[19] == 'a' || s[19] == 'b')
}

/// Returns `uuid::Uuid::new_v4().to_string()`: a random version-4 UUID in its
/// hyphenated text form.
///
/// Claimed: the text has the form `is_uuid_v4_text` describes. `new_v4` masks
/// the version and variant bits of a random `u128` (`v4.rs`), and `Display`
/// writes the lower-case hyphenated form (`fmt.rs`). Which UUID comes out is
/// random and not stated.
#[verifier::external_body]
pub(crate) fn random_uuid() -> (id: String)
    ensures
        is_uuid_v4_text(id@),
{
    uuid::Uuid::new_v4().to_string()
}

} // verus!
