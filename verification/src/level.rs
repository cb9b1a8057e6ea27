//! Player levels: level `l` begins at `100 * (l - 1)^2` experience points.
use vstd::prelude::*;

verus! {

/// `level` is the level of a player with `xp` experience points:
/// `level == floor(sqrt(xp) / 10) + 1`, which is to say
/// `100 * (level - 1)^2 <= xp < 100 * level^2`.
pub open spec fn is_level_of(xp: int, level: int) -> bool {
    &&& level >= 1
    &&& 100 * (level - 1) * (level - 1) <= xp
    &&& xp < 100 * level * level
}

/// The level of a player with `xp` experience points: the square root of the
/// points divided by ten, rounded down, plus one.
pub fn calculate_level_from_xp(xp: u32) -> (level: u32)
    ensures
        is_level_of(xp as int, level as int),
{
    let x: u64 = xp as u64;
    let mut lo: u64 = 1;
    let mut hi: u64 = 6554;
    assert(x < 100 * 6554 * 6554);
    while lo < hi
        invariant
            1 <= lo <= hi <= 6554,
            x == xp,
            100 * (lo - 1) * (lo - 1) <= x,
            x < 100 * hi * hi,
        decreases hi - lo,
    {
        let mid: u64 = lo + (hi - lo) / 2;
        assert(100 * mid * mid <= 100 * 6554 * 6554) by (nonlinear_arith)
            requires
                mid <= 6554,
        ;
        if 100 * mid * mid <= x {
            lo = mid + 1;
        } else {
            hi = mid;
        }
    }
    lo as u32
}

/// The same computation, under the name by which the browser build exports it.
pub fn js_calculate_level_from_xp(xp: u32) -> (level: u32)
    ensures
        is_level_of(xp as int, level as int),
{
    calculate_level_from_xp(xp)
}

/// Each amount of experience has exactly one level.
pub proof fn lemma_level_unique(xp: int, a: int, b: int)
    requires
        is_level_of(xp, a),
        is_level_of(xp, b),
    ensures
        a == b,
{
    if a < b {
        assert(100 * a * a <= 100 * (b - 1) * (b - 1)) by (nonlinear_arith)
            requires
                1 <= a <= b - 1,
        ;
    } else if b < a {
        assert(100 * b * b <= 100 * (a - 1) * (a - 1)) by (nonlinear_arith)
            requires
                1 <= b <= a - 1,
        ;
    }
}

/// More experience never means a lower level.
pub proof fn lemma_level_monotone(xp1: int, level1: int, xp2: int, level2: int)
    requires
        xp1 <= xp2,
        is_level_of(xp1, level1),
        is_level_of(xp2, level2),
    ensures
        level1 <= level2,
{
    if level2 < level1 {
        assert(100 * level2 * level2 <= 100 * (level1 - 1) * (level1 - 1)) by (nonlinear_arith)
            requires
                1 <= level2 <= level1 - 1,
        ;
    }
}

} // verus!
