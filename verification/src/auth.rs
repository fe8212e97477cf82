//! Shared-secret authorization: a caller is let in when the secret it
//! presents is, byte for byte, the configured one.

use vstd::prelude::*;
use vstd::string::StringSliceAdditionalSpecFns;
use vstd::utf8::encode_utf8;
use vstd::utf8::encode_utf8_decode_utf8;

verus! {

/// The bytes a text is made of on the wire.
pub open spec fn text_bytes(text: Seq<char>) -> Seq<u8> {
    encode_utf8(text)
}

/// A presented secret is accepted exactly when its bytes are those of the
/// expected text: nothing is trimmed, folded or otherwise normalised.
pub open spec fn grants(presented: Seq<u8>, expected: Seq<char>) -> bool {
    presented == text_bytes(expected)
}

/// Two texts have the same bytes only if they are the same text.
pub proof fn lemma_text_bytes_injective(left: Seq<char>, right: Seq<char>)
    ensures
        text_bytes(left) == text_bytes(right) <==> left == right,
{
    encode_utf8_decode_utf8(left);
    encode_utf8_decode_utf8(right);
}

/// A secret presented as text is accepted exactly when it is the expected text.
pub proof fn lemma_grants_text(presented: Seq<char>, expected: Seq<char>)
    ensures
        grants(text_bytes(presented), expected) <==> presented == expected,
{
    lemma_text_bytes_injective(presented, expected);
}

/// Whether two byte strings hold the same bytes in the same order.
pub fn same_bytes(left: &[u8], right: &[u8]) -> (same: bool)
    ensures
        same == (left@ == right@),
{
    if left.len() != right.len() {
        return false;
    }
    let mut at: usize = 0;
    while at < left.len()
        invariant
            left@.len() == right@.len(),
            at <= left@.len(),
            forall|i: int| 0 <= i < at ==> left@[i] == right@[i],
        decreases left@.len() - at,
    {
        if left[at] != right[at] {
            return false;
        }
        at += 1;
    }
    assert(left@ =~= right@);
    true
}

/// Compares the secret a caller presented against the configured one.
///
/// The comparison has no side effect; rejecting the request and logging the
/// refusal are the caller's business.
pub fn authorize(presented: &[u8], expected: &str) -> (granted: bool)
    ensures
        granted == grants(presented@, expected@),
{
    same_bytes(presented, expected.as_bytes())
}

} // verus!
