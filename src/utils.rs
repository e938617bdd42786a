//! Small helpers around outside crates.

use vstd::prelude::*;

verus! {

/// A lowercase hexadecimal digit character.
pub open spec fn is_lower_hex(c: char) -> bool {
    ('0' <= c && c <= '9') || ('a' <= c && c <= 'f')
}

/// The text of a random (version 4, RFC 4122 variant) UUID in hyphenated
/// form: 36 characters, hyphens at 8, 13, 18 and 23, the version digit `4`
/// at 14, the variant digit `8`, `9`, `a` or `b` at 19, lowercase
/// hexadecimal digits elsewhere.
pub open spec fn uuid_v4_text(s: Seq<char>) -> bool {
    &&& s.len() == 36
    &&& forall|i: int|
        0 <= i < 36 ==> if i == 8 || i == 13 || i == 18 || i == 23 {
            s[i] == '-'
        } else {
            is_lower_hex(#[trigger] s[i])
        }
    &&& s[14] == '4'
    &&& (s[19] == '8' || s[19] == '9' || s[19] == 'a' || s[19] == 'b')
}

/// A fresh nonce for one command.
///
/// Relies on `uuid::Uuid::new_v4`, which sets the version and variant bits
/// over random ones, and on its `to_string`, which writes the lowercase
/// hyphenated form. The rest of the value is random and not promised.
#[verifier::external_body]
pub fn nonce() -> (r: String)
    ensures
        uuid_v4_text(r@),
{
    uuid::Uuid::new_v4().to_string()
}

} // verus!
