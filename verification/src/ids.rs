//! Random identifiers.
use vstd::prelude::*;

verus! {

/// A lowercase hexadecimal digit.
pub open spec fn is_lower_hex(c: char) -> bool {
    ('0' <= c && c <= '9') || ('a' <= c && c <= 'f')
}

/// The hyphenated lowercase text of a version-4 UUID:
/// `xxxxxxxx-xxxx-4xxx-yxxx-xxxxxxxxxxxx` with `y` one of `8 9 a b`.
pub open spec fn is_uuid_v4_text(s: Seq<char>) -> bool {
    &&& s.len() == 36
    &&& s[8] == '-' && s[13] == '-' && s[18] == '-' && s[23] == '-'
    &&& s[14] == '4'
    &&& (s[19] == '8' || s[19] == '9' || s[19] == 'a' || s[19] == 'b')
    &&& forall|i: int|
        0 <= i < 36 && i != 8 && i != 13 && i != 18 && i != 23 ==> is_lower_hex(#[trigger] s[i])
}

/// Calls `uuid::Uuid::new_v4` and prints it with `to_string`. The value is
/// random; the contract states only the hyphenated lowercase shape that the
/// uuid documentation gives for a version-4 UUID.
#[verifier::external_body]
pub fn new_uuid_v4() -> (s: String)
    ensures
        is_uuid_v4_text(s@),
{
    uuid::Uuid::new_v4().to_string()
}

} // verus!
