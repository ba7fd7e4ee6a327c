use vstd::prelude::*;
use crate::fixed::UNIT;

verus! {

/// The 32 mixed bits that belong to the coordinate pair `(x, y)`: two
/// multiplicative rounds with xor-shifts between them.
pub open spec fn mixed_bits(x: u32, y: u32) -> u32 {
    let a: u32 = x.wrapping_mul(374761393u32) ^ y.wrapping_mul(668265263u32);
    let b: u32 = (a ^ (a >> 13u32)).wrapping_mul(1274126177u32);
    b ^ (b >> 16u32)
}

/// The scalar in `[0, 1)` that belongs to `(x, y)`, in millionths: the mixed
/// bits read as a fraction of 2^32, rounded down.
pub open spec fn hash01_spec(x: u32, y: u32) -> int {
    (mixed_bits(x, y) as int * UNIT as int) / 0x1_0000_0000
}

/// Mixes a coordinate pair into 32 bits.
pub fn hash_bits(x: u32, y: u32) -> (v: u32)
    ensures
        v == mixed_bits(x, y),
{
    let a: u32 = x.wrapping_mul(374761393u32) ^ y.wrapping_mul(668265263u32);
    let b: u32 = (a ^ (a >> 13u32)).wrapping_mul(1274126177u32);
    b ^ (b >> 16u32)
}

/// A fixed pseudo-random scalar per coordinate pair, in millionths.
///
/// The result is a function of the pair alone, and lies in `[0, 1)`.
pub fn hash01(x: u32, y: u32) -> (r: i64)
    ensures
        r == hash01_spec(x, y),
        0 <= r < UNIT,
{
    let v: u64 = hash_bits(x, y) as u64;
    let scaled: u64 = v * 1_000_000u64;
    let r: u64 = scaled / 0x1_0000_0000u64;
    r as i64
}

/// Every value of [`hash01_spec`] lies in `[0, 1)`.
pub proof fn hash01_in_unit_range(x: u32, y: u32)
    ensures
        0 <= hash01_spec(x, y) < UNIT,
{
}

} // verus!
