//! Small bit-manipulation helpers shared by the CPU and the controller.

use vstd::prelude::*;

verus! {

/// Builds a vector of `n` copies of `value`.
pub fn filled_vec<T: Copy>(n: usize, value: T) -> (v: Vec<T>)
    ensures
        v@ == Seq::new(n as nat, |i: int| value),
{
    let mut v: Vec<T> = Vec::new();
    for k in 0..n
        invariant
            v@ =~= Seq::new(k as nat, |i: int| value),
    {
        v.push(value);
    }
    proof {
        assert(v@ =~= Seq::new(n as nat, |i: int| value));
    }
    v
}

/// Extracts bit `i` of `num` as 0 or 1.
pub fn get_bit(num: usize, i: u8) -> (r: u8)
    requires
        i < 8,
    ensures
        r as usize == (num >> (i as usize)) & 1,
        r <= 1,
{
    proof {
        assert((num >> (i as usize)) & 1 <= 1) by (bit_vector);
    }
    ((num >> (i as usize)) & 1) as u8
}

/// Returns the low byte of `num` with bit `idx` forced to 1.
pub fn set_bit(num: usize, idx: u8) -> (r: u8)
    requires
        idx < 8,
        num < 256,
    ensures
        r as usize == num | (1usize << (idx as usize)),
{
    proof {
        assert(num < 256 && idx < 8 ==> (num | (1usize << (idx as usize))) < 256)
            by (bit_vector);
    }
    (num | (1usize << (idx as usize))) as u8
}

/// Returns the low byte of `num` with bit `idx` forced to 0.
pub fn unset_bit(num: usize, idx: u8) -> (r: u8)
    requires
        idx < 8,
        num < 256,
    ensures
        r as usize == num & !(1usize << (idx as usize)),
{
    proof {
        assert(num < 256 ==> (num & !(1usize << (idx as usize))) < 256) by (bit_vector);
    }
    (num & !(1usize << (idx as usize))) as u8
}

} // verus!
