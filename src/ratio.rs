use vstd::prelude::*;

verus! {

/// Ratios are fixed-point: `RATIO_ONE` stands for 1.0, so a ratio `r` means
/// `r / RATIO_ONE`. Millionths keep 0, 1/4, 1/2, 3/4 and 1 exact.
pub const RATIO_ONE: u64 = 1_000_000;

/// A ratio pulled into the unit interval.
pub open spec fn clamp_spec(v: u64) -> u64 {
    if v > RATIO_ONE {
        RATIO_ONE
    } else {
        v
    }
}

/// `round(x * r)`, with halves rounded up.
pub open spec fn scale_spec(x: u64, r: u64) -> int {
    (x * r + RATIO_ONE / 2) / (RATIO_ONE as int)
}

/// The ratio that `part` is of `whole`, rounded down; a zero whole counts as a
/// full ratio for any non-zero part and as none for a zero part.
pub open spec fn ratio_of_spec(part: u64, whole: u64) -> int {
    if whole == 0 {
        if part > 0 {
            RATIO_ONE as int
        } else {
            0
        }
    } else {
        (part * RATIO_ONE) / (whole as int)
    }
}

pub fn clamp_ratio(v: u64) -> (r: u64)
    ensures
        r == clamp_spec(v),
{
    if v > RATIO_ONE {
        RATIO_ONE
    } else {
        v
    }
}

/// Scales `x` by the ratio `r`, rounding to the nearest integer.
pub fn scale(x: u64, r: u64) -> (res: u64)
    requires
        r <= RATIO_ONE,
    ensures
        res == scale_spec(x, r),
        res <= x,
{
    proof {
        assert(x * r <= u64::MAX * RATIO_ONE) by (nonlinear_arith)
            requires
                r <= RATIO_ONE,
                x <= u64::MAX,
        ;
        assert(x * r <= x * RATIO_ONE) by (nonlinear_arith)
            requires
                r <= RATIO_ONE,
        ;
        assert((x * r + RATIO_ONE / 2) / (RATIO_ONE as int) <= x) by (nonlinear_arith)
            requires
                x * r <= x * RATIO_ONE,
        ;
    }
    let p: u128 = (x as u128) * (r as u128) + (RATIO_ONE / 2) as u128;
    (p / (RATIO_ONE as u128)) as u64
}

/// `round(x * r)` for any ratio, saturating at `u64::MAX`.
pub open spec fn scale_sat_spec(x: u64, r: u64) -> int {
    if scale_spec(x, r) > u64::MAX {
        u64::MAX as int
    } else {
        scale_spec(x, r)
    }
}

pub fn scale_sat(x: u64, r: u64) -> (res: u64)
    ensures
        res == scale_sat_spec(x, r),
{
    proof {
        assert(x * r <= u64::MAX * u64::MAX) by (nonlinear_arith)
            requires
                x <= u64::MAX,
                r <= u64::MAX,
        ;
    }
    let p: u128 = (x as u128) * (r as u128) + (RATIO_ONE / 2) as u128;
    let q: u128 = p / (RATIO_ONE as u128);
    if q > u64::MAX as u128 {
        u64::MAX
    } else {
        q as u64
    }
}

/// The ratio that `part` is of `whole` (see `ratio_of_spec`).
pub fn ratio_of(part: u64, whole: u64) -> (res: u128)
    ensures
        res == ratio_of_spec(part, whole),
{
    if whole == 0 {
        if part > 0 {
            RATIO_ONE as u128
        } else {
            0
        }
    } else {
        proof {
            assert(part * RATIO_ONE <= u64::MAX * RATIO_ONE) by (nonlinear_arith);
        }
        ((part as u128) * (RATIO_ONE as u128)) / (whole as u128)
    }
}

/// The slider position for a ratio on a slider of `range` positions:
/// `round(r * (range - 1))`.
pub open spec fn slider_slot_spec(r: u64, range: usize) -> int {
    scale_spec((range - 1) as u64, clamp_spec(r))
}

/// Where a slider of `range` positions stands for the ratio `r` (clamped first).
pub fn slider_slot(r: u64, range: usize) -> (slot: usize)
    requires
        range >= 1,
    ensures
        slot == slider_slot_spec(r, range),
        slot < range,
{
    let c = clamp_ratio(r);
    scale((range - 1) as u64, c) as usize
}

/// The ratio that position `val` of a slider of `range` positions stands for:
/// `val / (range - 1)`, rounded to the nearest millionth.
pub open spec fn slider_ratio_spec(val: usize, range: usize) -> int {
    (val * RATIO_ONE + (range - 1) / 2) / ((range - 1) as int)
}

pub fn slider_ratio(val: usize, range: usize) -> (r: u64)
    requires
        range >= 2,
        val < range,
        range - 1 <= RATIO_ONE,
    ensures
        r == slider_ratio_spec(val, range),
        r <= RATIO_ONE,
        slider_slot_spec(r, range) == val,
{
    let d: u128 = (range - 1) as u128;
    proof {
        assert(val * RATIO_ONE <= (range - 1) * RATIO_ONE) by (nonlinear_arith)
            requires
                val <= range - 1,
        ;
        assert((val * RATIO_ONE + (range - 1) / 2) / ((range - 1) as int) <= RATIO_ONE)
            by (nonlinear_arith)
            requires
                val * RATIO_ONE <= (range - 1) * RATIO_ONE,
                range >= 2,
        ;
        lemma_slider_round_trip(val, range);
    }
    (((val as u128) * (RATIO_ONE as u128) + d / 2) / d) as u64
}

/// A slider position turned into a ratio is shown again at the same
/// position, as long as the slider has no more positions than a ratio has
/// steps.
pub proof fn lemma_slider_round_trip(val: usize, range: usize)
    requires
        range >= 2,
        val < range,
        range - 1 <= RATIO_ONE,
    ensures
        slider_slot_spec(slider_ratio_spec(val, range) as u64, range) == val,
{
    let d: int = range - 1;
    let n: int = val * RATIO_ONE + d / 2;
    let q: int = n / d;
    vstd::arithmetic::div_mod::lemma_fundamental_div_mod(n, d);
    vstd::arithmetic::div_mod::lemma_mod_bound(n, d);
    let rem: int = n % d;
    assert(d * q == n - rem);
    assert(val * RATIO_ONE <= d * RATIO_ONE) by (nonlinear_arith)
        requires
            val <= d,
    ;
    assert(q <= RATIO_ONE) by (nonlinear_arith)
        requires
            d * q == n - rem,
            rem >= 0,
            n == val * RATIO_ONE + d / 2,
            val * RATIO_ONE <= d * RATIO_ONE,
            d >= 1,
            d <= RATIO_ONE,
    ;
    assert(q >= 0) by (nonlinear_arith)
        requires
            d * q == n - rem,
            rem < d,
            n >= 0,
            d >= 1,
    ;
    let t: int = d * q + RATIO_ONE / 2;
    if d == RATIO_ONE {
        assert(q == val);
    } else {
        assert(t < val * RATIO_ONE + RATIO_ONE);
    }
    assert(t >= val * RATIO_ONE);
    assert(t < val * RATIO_ONE + RATIO_ONE);
    assert(t / (RATIO_ONE as int) == val) by (nonlinear_arith)
        requires
            t >= val * RATIO_ONE,
            t < val * RATIO_ONE + RATIO_ONE,
    ;
    assert(((d as u64) * (q as u64)) == d * q);
}

} // verus!
