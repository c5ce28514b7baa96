//! The identifiers of messages: fresh ones, and when two are the same.
use crate::text::chars;
use vstd::prelude::*;

verus! {

/// Whether `c` is a lower-case hexadecimal digit.
pub open spec fn is_hex_digit(c: char) -> bool {
    ('0' <= c && c <= '9') || ('a' <= c && c <= 'f')
}

/// Whether `s` is the text of a random UUID: five groups of lower-case hexadecimal digits with
/// hyphens between them, and the marks of version 4 and of the RFC variant.
pub open spec fn is_uuid(s: Seq<char>) -> bool {
    &&& s.len() == 36
    &&& s[8] == '-' && s[13] == '-' && s[18] == '-' && s[23] == '-'
    &&& s[14] == '4'
    &&& s[19] == '8' || s[19] == '9' || s[19] == 'a' || s[19] == 'b'
    &&& forall|i: int|
        0 <= i < 36 && i != 8 && i != 13 && i != 18 && i != 23 ==> is_hex_digit(#[trigger] s[i])
}

/// An identifier without the angle brackets around it, if it stands in such.
pub open spec fn bare(id: Seq<char>) -> Seq<char> {
    if id.len() >= 2 && id.first() == '<' && id.last() == '>' {
        id.subrange(1, id.len() - 1)
    } else {
        id
    }
}

/// Whether two identifiers are the same, but for angle brackets around them and the case of ASCII
/// letters.
pub open spec fn is_same(a: Seq<char>, b: Seq<char>) -> bool {
    chars::ascii_lower(bare(a)) == chars::ascii_lower(bare(b))
}

/// An identifier without the angle brackets around it, if it stands in such.
pub fn without_brackets(id: &str) -> (r: &str)
    ensures
        r@ == bare(id@),
{
    let all = chars::characters(id);
    if all.len() >= 2 && all[0] == '<' && all[all.len() - 1] == '>' {
        id.substring_char(1, all.len() - 1)
    } else {
        id
    }
}

/// Whether two identifiers are the same, but for angle brackets around them and the case of ASCII
/// letters.
pub fn same_identifier(a: &str, b: &str) -> (r: bool)
    ensures
        r == is_same(a@, b@),
{
    chars::same_ignoring_ascii_case(without_brackets(a), without_brackets(b))
}

/// `uuid::Uuid::new_v4` and its `Display`: a UUID from random bytes, another one at each call.
/// That no two calls give the same one is not stated.
#[verifier::external_body]
pub(crate) fn fresh_uuid() -> (r: String)
    ensures
        is_uuid(r@),
{
    uuid::Uuid::new_v4().to_string()
}

} // verus!
