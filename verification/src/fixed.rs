use vstd::prelude::*;

verus! {

/// Number of fixed-point steps in one whole: every scalar of this crate is a
/// count of millionths.
pub const UNIT: i64 = 1_000_000;

/// The square of [`UNIT`]: the denominator of a product of two scalars.
pub const UNIT2: i128 = 1_000_000_000_000;

/// The cube of [`UNIT`].
pub const UNIT3: i128 = 1_000_000_000_000_000_000;

/// `v`, moved into `[lo, hi]`.
pub open spec fn clamp(v: int, lo: int, hi: int) -> int {
    if v < lo {
        lo
    } else if v > hi {
        hi
    } else {
        v
    }
}

/// Nearest value of `i64` to `v`.
pub open spec fn saturate(v: int) -> i64 {
    if v < i64::MIN {
        i64::MIN
    } else if v > i64::MAX {
        i64::MAX
    } else {
        v as i64
    }
}

/// Product of two scalars, rounded down to a whole number of millionths.
pub open spec fn scaled(a: int, b: int) -> int {
    (a * b) / (UNIT as int)
}

/// Quotient rounded towards negative infinity.
pub fn floor_div(n: i128, d: i128) -> (q: i128)
    requires
        d > 0,
    ensures
        q == n as int / d as int,
{
    if n >= 0 {
        n / d
    } else {
        let m: i128 = -(n + 1);
        let k: i128 = m / d;
        proof {
            let r: int = m as int % d as int;
            vstd::arithmetic::div_mod::lemma_fundamental_div_mod(m as int, d as int);
            vstd::arithmetic::div_mod::lemma_mod_bound(m as int, d as int);
            assert(n as int == (-(k as int) - 1) * (d as int) + (d as int - r - 1)) by (nonlinear_arith)
                requires
                    m as int == (d as int) * (k as int) + r,
                    n as int == -(m as int) - 1,
            ;
            vstd::arithmetic::div_mod::lemma_fundamental_div_mod_converse(
                n as int,
                d as int,
                -(k as int) - 1,
                d as int - r - 1,
            );
        }
        -k - 1
    }
}

/// Nearest `i64` to a wide value.
pub fn saturate_wide(v: i128) -> (r: i64)
    ensures
        r == saturate(v as int),
{
    if v < i64::MIN as i128 {
        i64::MIN
    } else if v > i64::MAX as i128 {
        i64::MAX
    } else {
        v as i64
    }
}

/// Exact product of two 64-bit values.
pub fn wide_product(a: i64, b: i64) -> (p: i128)
    ensures
        p == a * b,
        -0x4000_0000_0000_0000_0000_0000_0000_0000 <= p <= 0x4000_0000_0000_0000_0000_0000_0000_0000,
{
    assert(-0x4000_0000_0000_0000_0000_0000_0000_0000 <= a as int * b as int
        <= 0x4000_0000_0000_0000_0000_0000_0000_0000) by (nonlinear_arith)
        requires
            -0x8000_0000_0000_0000 <= a as int <= 0x7fff_ffff_ffff_ffff,
            -0x8000_0000_0000_0000 <= b as int <= 0x7fff_ffff_ffff_ffff,
    ;
    (a as i128) * (b as i128)
}

/// Product of a span of time and a rate, rounded down to millionths.
pub fn scale_time(t: u64, rate: i64) -> (r: i128)
    ensures
        r == scaled(t as int, rate as int),
        -0x1_0000_0000_0000_0000_0000_0000_0000 <= r <= 0x1_0000_0000_0000_0000_0000_0000_0000,
{
    assert(-0x7fff_ffff_ffff_ffff_ffff_ffff_ffff_ffff <= t as int * rate as int
        <= 0x7fff_ffff_ffff_ffff_ffff_ffff_ffff_ffff) by (nonlinear_arith)
        requires
            0 <= t as int <= 0xffff_ffff_ffff_ffff,
            -0x8000_0000_0000_0000 <= rate as int <= 0x7fff_ffff_ffff_ffff,
    ;
    floor_div((t as i128) * (rate as i128), UNIT as i128)
}

/// Product of the scalars `a` and `b`, rounded down to millionths and then
/// to the nearest `i64`.
pub fn scale_wide(a: i128, b: i64) -> (r: i64)
    ensures
        r == saturate(scaled(a as int, b as int)),
{
    match a.checked_mul(b as i128) {
        Some(p) => saturate_wide(floor_div(p, UNIT as i128)),
        None => {
            proof {
                let x: int = a as int;
                let y: int = b as int;
                assert(((x > 0 && y > 0) || (x < 0 && y < 0)) ==> x * y > 0) by (nonlinear_arith);
                assert(((x > 0 && y < 0) || (x < 0 && y > 0)) ==> x * y < 0) by (nonlinear_arith);
                assert((x == 0 || y == 0) ==> x * y == 0) by (nonlinear_arith);
            }
            if (a > 0) == (b > 0) {
                i64::MAX
            } else {
                i64::MIN
            }
        },
    }
}

} // verus!
