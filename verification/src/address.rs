//! Addresses: opaque identifiers, equal exactly when their bytes are equal.

use vstd::prelude::*;
use vstd::string::StringSliceAdditionalSpecFns;
use vstd::utf8::encode_utf8_decode_utf8;

verus! {

/// Two character sequences with the same UTF-8 encoding are the same sequence.
pub proof fn equal_bytes_equal_chars(left: &str, right: &str)
    requires
        left.spec_bytes() == right.spec_bytes(),
    ensures
        left@ == right@,
{
    encode_utf8_decode_utf8(left@);
    encode_utf8_decode_utf8(right@);
}

/// Whether two addresses are the same, decided byte by byte.
pub fn same_address(left: &str, right: &str) -> (same: bool)
    ensures
        same == (left@ == right@),
{
    let left_bytes = left.as_bytes();
    let right_bytes = right.as_bytes();
    if left_bytes.len() != right_bytes.len() {
        return false;
    }
    let mut at: usize = 0;
    while at < left_bytes.len()
        invariant
            left_bytes@ == left.spec_bytes(),
            right_bytes@ == right.spec_bytes(),
            left_bytes@.len() == right_bytes@.len(),
            at <= left_bytes@.len(),
            forall|i: int| 0 <= i < at ==> left_bytes@[i] == right_bytes@[i],
        decreases left_bytes@.len() - at,
    {
        if left_bytes[at] != right_bytes[at] {
            return false;
        }
        at = at + 1;
    }
    proof {
        assert(left_bytes@ =~= right_bytes@);
        equal_bytes_equal_chars(left, right);
    }
    true
}

} // verus!
