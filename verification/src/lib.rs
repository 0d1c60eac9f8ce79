use vstd::prelude::*;

verus! {

/// The sum of two 32-bit signed integers under wrapping semantics: a result
/// that leaves the `i32` range comes back shifted by 2^32 into it.
pub open spec fn wrapping_sum(a: i32, b: i32) -> i32 {
    if a + b > i32::MAX {
        (a + b - 0x1_0000_0000) as i32
    } else if a + b < i32::MIN {
        (a + b + 0x1_0000_0000) as i32
    } else {
        (a + b) as i32
    }
}

/// Adds two 32-bit signed integers. Overflow wraps: past `i32::MAX` the
/// result continues from `i32::MIN`, and past `i32::MIN` from `i32::MAX`.
pub fn sum(a: i32, b: i32) -> (r: i32)
    ensures
        r == wrapping_sum(a, b),
        i32::MIN <= a + b <= i32::MAX ==> r == a + b,
{
    a.wrapping_add(b)
}

/// Law: the sum does not depend on the order of its arguments.
pub proof fn lemma_sum_commutative(a: i32, b: i32)
    ensures
        wrapping_sum(a, b) == wrapping_sum(b, a),
{
}

/// Law: adding zero returns the other argument unchanged.
pub proof fn lemma_sum_identity(a: i32)
    ensures
        wrapping_sum(a, 0) == a,
{
}

} // verus!
