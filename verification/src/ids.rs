//! Identifiers that nothing else carries.

use crate::text::joined;
use vstd::prelude::*;

verus! {

/// Whether `c` is a hexadecimal digit, without capitals.
pub open spec fn is_hex(c: char) -> bool {
    '0' <= c <= '9' || 'a' <= c <= 'f'
}

/// Whether `s` is a random UUID of version 4, as 32 hexadecimal digits.
pub open spec fn is_random_uuid(s: Seq<char>) -> bool {
    &&& s.len() == 32
    &&& forall|i: int| 0 <= i < 32 ==> is_hex(#[trigger] s[i])
    &&& s[12] == '4'
    &&& (s[16] == '8' || s[16] == '9' || s[16] == 'a' || s[16] == 'b')
}

/// `uuid::Uuid::new_v4` draws a random UUID, and `simple` writes it down without hyphens: 32
/// hexadecimal digits, of which two tell the version and the variant. Which digits the others are
/// is left to chance. It panics if the system gives no random bytes.
#[verifier::external_body]
pub(crate) fn random_uuid() -> (r: String)
    ensures
        is_random_uuid(r@),
{
    uuid::Uuid::new_v4().simple().to_string()
}

/// Whether `id` is `prefix` followed by a random UUID.
pub open spec fn is_new_id(id: Seq<char>, prefix: Seq<char>) -> bool {
    &&& id.len() == prefix.len() + 32
    &&& id.take(prefix.len() as int) == prefix
    &&& is_random_uuid(id.skip(prefix.len() as int))
}

/// Makes up an identifier that starts with `prefix`.
pub fn new_id(prefix: &str) -> (r: String)
    ensures
        is_new_id(r@, prefix@),
{
    let unique = random_uuid();
    let r = joined(prefix, unique.as_str());
    assert(r@.take(prefix@.len() as int) =~= prefix@);
    assert(r@.skip(prefix@.len() as int) =~= unique@);
    r
}

}
