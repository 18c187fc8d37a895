//! Saturating fixed-point arithmetic in micro-units.
//!
//! Every quantity of the engine is a `u64` in micro-units: an amount of
//! `x` micro-units stands for the real number `x / 1_000_000`. Arithmetic
//! saturates at [`CAP`], so no operation here can overflow or panic; each
//! executable function returns exactly the value of its spec mirror.

use vstd::prelude::*;

verus! {

/// One whole unit in micro-units.
pub const SCALE: u64 = 1_000_000;

/// Upper bound for every amount the engine computes; arithmetic saturates here.
pub const CAP: u64 = 4_600_000_000_000_000_000;

/// Saturating addition of two amounts.
pub open spec fn cap_add(a: u64, b: u64) -> u64 {
    if a + b > CAP { CAP } else { (a + b) as u64 }
}

/// Saturating sum: `min(CAP, a + b)`.
pub fn add_cap(a: u64, b: u64) -> (r: u64)
    ensures
        r == cap_add(a, b),
{
    let s: u128 = a as u128 + b as u128;
    if s > CAP as u128 { CAP } else { s as u64 }
}

/// The product of two values below given bounds stays below the bounds' product.
pub(crate) proof fn lemma_mul_bound(a: int, b: int, ba: int, bb: int)
    by (nonlinear_arith)
    requires
        0 <= a <= ba,
        0 <= b <= bb,
    ensures
        a * b <= ba * bb,
{
}

/// Multiplication distributes over addition.
proof fn lemma_mul_distrib(a: int, b: int, c: int)
    by (nonlinear_arith)
    ensures
        a * (b + c) == a * b + a * c,
{
}

/// Truncating subtraction: `a - b`, floored at zero.
pub open spec fn sat_sub(a: u64, b: u64) -> u64 {
    if a >= b { (a - b) as u64 } else { 0 }
}

/// Truncating subtraction: `a - b`, floored at zero.
pub fn sub_floor(a: u64, b: u64) -> (r: u64)
    ensures
        r == sat_sub(a, b),
{
    if a >= b { a - b } else { 0 }
}

/// Scale an amount by a micro-fraction: `min(CAP, a * f / SCALE)`.
pub open spec fn cap_mul_frac(a: u64, f: u64) -> u64 {
    if a * f / (SCALE as int) > CAP { CAP } else { (a * f / (SCALE as int)) as u64 }
}

/// Scale an amount by a micro-fraction, rounding down and saturating.
pub fn mul_frac(a: u64, f: u64) -> (r: u64)
    ensures
        r == cap_mul_frac(a, f),
{
    proof {
        lemma_mul_bound(a as int, f as int, u64::MAX as int, u64::MAX as int);
    }
    let p: u128 = (a as u128 * f as u128) / (SCALE as u128);
    if p > CAP as u128 { CAP } else { p as u64 }
}

/// Divide an amount by a micro-fraction: `min(CAP, a * SCALE / f)`.
pub open spec fn cap_div_frac(a: u64, f: u64) -> u64 {
    if f == 0 {
        CAP
    } else if a * SCALE / (f as int) > CAP {
        CAP
    } else {
        (a * SCALE / (f as int)) as u64
    }
}

/// Divide an amount by a micro-fraction, rounding down and saturating.
pub fn div_frac(a: u64, f: u64) -> (r: u64)
    ensures
        r == cap_div_frac(a, f),
{
    if f == 0 {
        CAP
    } else {
        proof {
            lemma_mul_bound(a as int, SCALE as int, u64::MAX as int, u64::MAX as int);
        }
        let p: u128 = (a as u128 * SCALE as u128) / (f as u128);
        if p > CAP as u128 { CAP } else { p as u64 }
    }
}

/// Multiply an amount by a plain integer: `min(CAP, a * k)`.
pub open spec fn cap_mul_int(a: u64, k: u64) -> u64 {
    if a * k > CAP { CAP } else { (a * k) as u64 }
}

/// Multiply an amount by a plain integer, saturating.
pub fn mul_int(a: u64, k: u64) -> (r: u64)
    ensures
        r == cap_mul_int(a, k),
{
    proof {
        lemma_mul_bound(a as int, k as int, u64::MAX as int, u64::MAX as int);
    }
    let p: u128 = a as u128 * k as u128;
    if p > CAP as u128 { CAP } else { p as u64 }
}

/// Saturating increment of an event counter.
pub open spec fn bump(c: u64) -> u64 {
    if c < u64::MAX { (c + 1) as u64 } else { c }
}

/// Round a micro-second timestamp to the nearest whole milli-second
/// (half rounds up). Rescheduled event times pass through this rounding,
/// which bounds drift and keeps cross-run comparisons reproducible.
pub open spec fn milli_round(t: u64) -> u64 {
    if (t + 500) / 1000 * 1000 > CAP { CAP } else { ((t + 500) / 1000 * 1000) as u64 }
}

/// Round a micro-second timestamp to the nearest whole milli-second.
pub fn round_to_milli(t: u64) -> (r: u64)
    ensures
        r == milli_round(t),
{
    let p: u128 = (t as u128 + 500) / 1000 * 1000;
    if p > CAP as u128 { CAP } else { p as u64 }
}

/// Saturated power of a micro-fraction: `m^n`, each step rounded down.
pub open spec fn pow_frac(m: u64, n: nat) -> u64
    decreases n,
{
    if n == 0 {
        SCALE
    } else {
        cap_mul_frac(pow_frac(m, (n - 1) as nat), m)
    }
}

/// Compute `m^n` for a micro-fraction `m`, saturating at [`CAP`].
pub fn pow_frac_exec(m: u64, n: u32) -> (r: u64)
    ensures
        r == pow_frac(m, n as nat),
{
    let mut acc: u64 = SCALE;
    let mut i: u32 = 0;
    while i < n
        invariant
            i <= n,
            acc == pow_frac(m, i as nat),
        decreases n - i,
    {
        acc = mul_frac(acc, m);
        i = i + 1;
    }
    acc
}

/// Exact integer power, for stating the geometric-sum law.
pub open spec fn pow_int(m: int, n: nat) -> int
    decreases n,
{
    if n == 0 { 1 } else { m * pow_int(m, (n - 1) as nat) }
}

/// Exact sum of the first `n` powers of `m`: `m^0 + m^1 + ... + m^(n-1)`.
pub open spec fn sum_pows(m: int, n: nat) -> int
    decreases n,
{
    if n == 0 { 0 } else { sum_pows(m, (n - 1) as nat) + pow_int(m, (n - 1) as nat) }
}

/// The loot formula's closed form agrees with per-stage accumulation:
/// over the integers, `(m - 1) * (m^0 + ... + m^(n-1)) == m^n - 1`, so the
/// closed-form geometric sum `(m^n - 1) / (m - 1)` equals the sum of the
/// per-stage terms computed incrementally.
pub proof fn lemma_geometric_closed_form(m: int, n: nat)
    ensures
        (m - 1) * sum_pows(m, n) == pow_int(m, n) - 1,
    decreases n,
{
    if n == 0 {
    } else {
        lemma_geometric_closed_form(m, (n - 1) as nat);
        let s = sum_pows(m, (n - 1) as nat);
        let p = pow_int(m, (n - 1) as nat);
        lemma_mul_distrib(m - 1, s, p);
        assert((m - 1) * p == m * p - p) by (nonlinear_arith);
    }
}

/// Integer square root: the greatest `r` with `r * r <= x`.
pub fn isqrt(x: u64) -> (r: u64)
    ensures
        r * r <= x,
        (r + 1) * (r + 1) > x,
{
    let mut lo: u64 = 0;
    let mut hi: u64 = 4_294_967_296;
    // Invariant: lo * lo <= x < hi * hi; answer lies in [lo, hi).
    while lo + 1 < hi
        invariant
            lo < hi,
            hi <= 4_294_967_296,
            lo * lo <= x,
            hi * hi > x,
        decreases hi - lo,
    {
        let mid: u64 = lo + (hi - lo) / 2;
        proof {
            lemma_mul_bound(mid as int, mid as int, u64::MAX as int, u64::MAX as int);
        }
        let sq: u128 = mid as u128 * mid as u128;
        if sq <= x as u128 {
            lo = mid;
        } else {
            hi = mid;
        }
    }
    lo
}

} // verus!
