use vstd::prelude::*;

verus! {

/// Fixed-point scale of blend factors and progress fractions: `BLEND_ONE` stands for 1.
pub const BLEND_ONE: u32 = 65536;

/// The cubic easing curve `3x^2 - 2x^3`, over fixed-point `x` in `[0, BLEND_ONE]`,
/// rounded down.
pub open spec fn smoothstep_spec(x: int) -> int {
    let s = BLEND_ONE as int;
    (3 * x * x * s - 2 * x * x * x) / (s * s)
}

/// Eased blend factor for a fixed-point progress `x`.
pub fn smoothstep(x: u32) -> (r: u32)
    requires
        x <= BLEND_ONE,
    ensures
        r == smoothstep_spec(x as int),
        r <= BLEND_ONE,
{
    let x64 = x as u64;
    let s = BLEND_ONE as u64;
    assert(x64 * x64 <= s * s) by (nonlinear_arith)
        requires x64 <= s;
    let sq = x64 * x64;
    assert(sq * x64 <= s * s * s) by (nonlinear_arith)
        requires x64 <= s, sq <= s * s;
    let cube = sq * x64;
    assert(3 * sq * s <= 3 * s * s * s && 2 * cube <= 3 * sq * s) by (nonlinear_arith)
        requires x64 <= s, sq == x64 * x64, cube == sq * x64;
    let num = 3 * sq * s - 2 * cube;
    assert(num == 3 * x * x * s - 2 * x * x * x) by (nonlinear_arith)
        requires sq == x64 * x64, cube == sq * x64, x64 == x, num == 3 * sq * s - 2 * cube;
    assert(num <= s * s * s) by (nonlinear_arith)
        requires
            x64 <= s,
            num == 3 * x64 * x64 * s - 2 * x64 * x64 * x64,
            (s - x64) * (s - x64) * (s + 2 * x64) >= 0,
    ;
    let r = num / (s * s);
    assert(r <= s) by (nonlinear_arith)
        requires num <= s * s * s, r as int == num as int / (s as int * s as int), s > 0;
    r as u32
}

/// Progress through a transition as a fixed-point fraction: the share of `total`
/// that has elapsed once `left` remains, rounded down.
pub open spec fn progress_spec(left: int, total: int) -> int {
    (total - left) * (BLEND_ONE as int) / total
}

/// Fixed-point progress of a transition of length `total` with `left` remaining.
pub fn progress(left: u64, total: u64) -> (r: u32)
    requires
        left <= total,
        total > 0,
    ensures
        r == progress_spec(left as int, total as int),
        r <= BLEND_ONE,
{
    let elapsed = (total - left) as u128;
    assert(elapsed * (BLEND_ONE as u128) <= 0x1_0000_0000_0000_0000_0000) by (nonlinear_arith)
        requires elapsed <= 0xffff_ffff_ffff_ffff;
    let scaled = elapsed * (BLEND_ONE as u128);
    let r = scaled / (total as u128);
    assert(r <= BLEND_ONE) by (nonlinear_arith)
        requires
            elapsed <= total,
            scaled == elapsed * (BLEND_ONE as u128),
            r as int == scaled as int / total as int,
            total > 0,
    ;
    r as u32
}

/// The easing curve starts at rest, ends exactly at one, and never decreases
/// in between.
pub proof fn lemma_smoothstep_monotonic(x1: int, x2: int)
    requires
        0 <= x1 < x2 <= BLEND_ONE,
    ensures
        smoothstep_spec(x1) <= smoothstep_spec(x2),
        smoothstep_spec(0) == 0,
        smoothstep_spec(BLEND_ONE as int) == BLEND_ONE,
{
    let s = BLEND_ONE as int;
    let n1 = 3 * x1 * x1 * s - 2 * x1 * x1 * x1;
    let n2 = 3 * x2 * x2 * s - 2 * x2 * x2 * x2;
    assert(x1 * x1 <= x1 * s && x2 * x2 <= x2 * s && x1 * x2 <= x2 * s && x1 * x2 <= x1 * s)
        by (nonlinear_arith)
        requires 0 <= x1 < x2 <= s;
    assert(3 * s * (x1 + x2) >= 2 * (x1 * x1 + x1 * x2 + x2 * x2)) by (nonlinear_arith)
        requires
            0 <= x1 < x2 <= s,
            x1 * x1 <= x1 * s,
            x2 * x2 <= x2 * s,
            x1 * x2 <= x2 * s,
            x1 * x2 <= x1 * s,
    ;
    let d = x2 - x1;
    assert(x2 * x2 - x1 * x1 == d * (x1 + x2)) by (nonlinear_arith)
        requires d == x2 - x1;
    assert(x2 * x2 * x2 - x1 * x1 * x1 == d * (x1 * x1 + x1 * x2 + x2 * x2)) by (nonlinear_arith)
        requires d == x2 - x1;
    assert(n2 - n1 == 3 * s * (x2 * x2 - x1 * x1) - 2 * (x2 * x2 * x2 - x1 * x1 * x1))
        by (nonlinear_arith)
        requires
            n1 == 3 * x1 * x1 * s - 2 * x1 * x1 * x1,
            n2 == 3 * x2 * x2 * s - 2 * x2 * x2 * x2,
    ;
    assert(n2 - n1 == (x2 - x1) * (3 * s * (x1 + x2) - 2 * (x1 * x1 + x1 * x2 + x2 * x2)))
        by (nonlinear_arith)
        requires
            d == x2 - x1,
            n2 - n1 == 3 * s * (x2 * x2 - x1 * x1) - 2 * (x2 * x2 * x2 - x1 * x1 * x1),
            x2 * x2 - x1 * x1 == d * (x1 + x2),
            x2 * x2 * x2 - x1 * x1 * x1 == d * (x1 * x1 + x1 * x2 + x2 * x2),
    ;
    assert(n1 <= n2) by (nonlinear_arith)
        requires
            n2 - n1 == (x2 - x1) * (3 * s * (x1 + x2) - 2 * (x1 * x1 + x1 * x2 + x2 * x2)),
            x1 < x2,
            3 * s * (x1 + x2) >= 2 * (x1 * x1 + x1 * x2 + x2 * x2),
    ;
    vstd::arithmetic::div_mod::lemma_div_is_ordered(n1, n2, s * s);
    assert(3 * s * s * s - 2 * s * s * s == (s * s) * s) by (nonlinear_arith);
    vstd::arithmetic::div_mod::lemma_div_multiples_vanish(s, s * s);
}

} // verus!
