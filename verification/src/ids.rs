use vstd::prelude::*;

verus! {

/// `c` is a lower-case hexadecimal digit.
pub open spec fn is_lower_hex_digit(c: char) -> bool {
    ('0' as u32 <= c as u32 <= '9' as u32) || ('a' as u32 <= c as u32 <= 'f' as u32)
}

/// `s` is the hyphenated lower-case text of a random (version 4, RFC 4122
/// variant) UUID: 36 characters, hyphens at positions 8, 13, 18 and 23,
/// hexadecimal digits elsewhere, the version digit `4` at position 14 and
/// one of `8`, `9`, `a`, `b` at position 19.
pub open spec fn is_v4_uuid_text(s: Seq<char>) -> bool {
    &&& s.len() == 36
    &&& forall|i: int|
        0 <= i < 36 ==> if i == 8 || i == 13 || i == 18 || i == 23 {
            s[i] == '-'
        } else {
            is_lower_hex_digit(#[trigger] s[i])
        }
    &&& s[14] == '4'
    &&& (s[19] == '8' || s[19] == '9' || s[19] == 'a' || s[19] == 'b')
}

/// `uuid::Uuid::new_v4` followed by `to_string`: a fresh random UUID in its
/// hyphenated lower-case text form.  What is claimed is only the shape of
/// that text (which `format_hyphenated` in the crate's source and the version
/// and variant bits that `new_v4` sets show); which UUID comes out is left
/// open, as it rests on the random number generator.
#[verifier::external_body]
pub(crate) fn new_v4_uuid_text() -> (s: String)
    ensures
        is_v4_uuid_text(s@),
{
    uuid::Uuid::new_v4().to_string()
}

} // verus!
