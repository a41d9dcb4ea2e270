use vstd::prelude::*;

verus! {

/// Multiplies `u64::MAX` by itself in `u128`, `times` times over, and returns
/// the last product (zero when `times` is zero).
pub fn max_u64_multiplications(times: usize) -> (r: u128)
    ensures
        times == 0 ==> r == 0,
        times > 0 ==> r == (u64::MAX as int) * (u64::MAX as int),
{
    let mut result: u128 = 0;
    let mut i: usize = 0;
    while i < times
        invariant
            i <= times,
            i == 0 ==> result == 0,
            i > 0 ==> result == (u64::MAX as int) * (u64::MAX as int),
        decreases times - i,
    {
        assert((u64::MAX as int) * (u64::MAX as int) <= u128::MAX) by (nonlinear_arith);
        result = u64::MAX as u128 * u64::MAX as u128;
        i += 1;
    }
    result
}

/// Shifts a zero `u16` left and then right by a byte, `times / 2` times over;
/// the value stays zero.
pub fn bitshift_byte(times: usize) -> (r: u16)
    ensures
        r == 0,
{
    let mut result: u16 = 0;
    let mut i: usize = 0;
    while i < times / 2
        invariant
            i <= times / 2,
            result == 0,
        decreases times / 2 - i,
    {
        result = result << 8u16;
        assert(result == 0) by (bit_vector)
            requires result == 0u16 << 8u16;
        result = result >> 8u16;
        assert(result == 0) by (bit_vector)
            requires result == 0u16 >> 8u16;
        i += 1;
    }
    result
}

} // verus!
