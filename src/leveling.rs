use vstd::prelude::*;

verus! {

/// Score units that make one step of the level curve (10^12 * 100).
pub const SCORE_PER_STEP: u128 = 100_000_000_000_000;

/// The integer square root: the largest `r` with `r * r <= n`.
pub open spec fn is_isqrt(n: int, r: int) -> bool {
    0 <= r && r * r <= n && n < (r + 1) * (r + 1)
}

/// The level curve: 1 below one step of score, otherwise twice the integer
/// square root of twice the number of whole steps.
pub open spec fn level_spec(score: int) -> int {
    let steps = score / (SCORE_PER_STEP as int);
    if steps == 0 {
        1
    } else {
        2 * isqrt_spec(2 * steps)
    }
}

/// The integer square root of a natural number, by recursion on `n`.
pub open spec fn isqrt_spec(n: int) -> int
    decreases n,
{
    if n <= 0 {
        0
    } else {
        let r = isqrt_spec(n - 1);
        if (r + 1) * (r + 1) <= n {
            r + 1
        } else {
            r
        }
    }
}

proof fn lemma_isqrt_spec(n: int)
    requires
        0 <= n,
    ensures
        is_isqrt(n, isqrt_spec(n)),
    decreases n,
{
    if n > 0 {
        lemma_isqrt_spec(n - 1);
        let r = isqrt_spec(n - 1);
        assert((r + 1) * (r + 1) <= n ==> n < (r + 2) * (r + 2)) by (nonlinear_arith)
            requires
                n - 1 < (r + 1) * (r + 1),
                0 <= r,
        ;
    }
}

proof fn lemma_isqrt_unique(n: int, a: int, b: int)
    requires
        is_isqrt(n, a),
        is_isqrt(n, b),
    ensures
        a == b,
{
    if a < b {
        assert((a + 1) * (a + 1) <= b * b) by (nonlinear_arith)
            requires
                0 <= a < b,
        ;
    } else if b < a {
        assert((b + 1) * (b + 1) <= a * a) by (nonlinear_arith)
            requires
                0 <= b < a,
        ;
    }
}

proof fn lemma_isqrt_two()
    ensures
        isqrt_spec(2) == 1,
{
    lemma_isqrt_spec(2);
    lemma_isqrt_unique(2, 1, isqrt_spec(2));
}

proof fn lemma_isqrt_monotone(m: int, n: int)
    requires
        0 <= m <= n,
    ensures
        isqrt_spec(m) <= isqrt_spec(n),
{
    lemma_isqrt_spec(m);
    lemma_isqrt_spec(n);
    let a = isqrt_spec(m);
    let b = isqrt_spec(n);
    if b < a {
        assert((b + 1) * (b + 1) <= a * a) by (nonlinear_arith)
            requires
                0 <= b < a,
        ;
    }
}

/// Integer square root by bisection.
pub fn sqrt(n: u128) -> (r: u128)
    ensures
        r as int == isqrt_spec(n as int),
{
    // Invariant: lo * lo <= n < hi * hi.
    let mut lo: u128 = 0;
    let mut hi: u128 = if n < 0x1_0000_0000_0000_0000 {
        n + 1
    } else {
        0x1_0000_0000_0000_0000
    };
    assert(n < hi * hi) by (nonlinear_arith)
        requires
            n < 0x1_0000_0000_0000_0000 ==> hi == n + 1,
            n >= 0x1_0000_0000_0000_0000 ==> hi == 0x1_0000_0000_0000_0000,
            n <= u128::MAX,
    ;
    while lo + 1 < hi
        invariant
            lo < hi <= 0x1_0000_0000_0000_0000,
            lo * lo <= n,
            n < hi * hi,
        decreases hi - lo,
    {
        let mid = lo + (hi - lo) / 2;
        assert(mid * mid <= 0xffff_ffff_ffff_fffe_0000_0000_0000_0001) by (nonlinear_arith)
            requires
                mid < 0x1_0000_0000_0000_0000,
        ;
        if mid * mid <= n {
            lo = mid;
        } else {
            hi = mid;
        }
    }
    proof {
        lemma_isqrt_spec(n as int);
        lemma_isqrt_unique(n as int, lo as int, isqrt_spec(n as int));
    }
    lo
}

/// The level that a score gives.
pub fn level_of(score: u128) -> (r: u128)
    ensures
        r as int == level_spec(score as int),
        r >= 1,
{
    let steps = score / SCORE_PER_STEP;
    if steps == 0 {
        1
    } else {
        let root = sqrt(2 * steps);
        proof {
            lemma_isqrt_monotone(2, 2 * steps as int);
            lemma_isqrt_two();
            lemma_isqrt_spec(2 * steps as int);
            assert(root * root <= 2 * steps);
            assert(root < 0x1_0000_0000_0000_0000) by (nonlinear_arith)
                requires
                    root * root <= 2 * steps,
                    steps <= u128::MAX / SCORE_PER_STEP,
            ;
        }
        2 * root
    }
}

/// A score of zero is level 1, and the level never falls as the score grows.
pub proof fn lemma_level_monotone(s: int, t: int)
    requires
        0 <= s <= t,
    ensures
        level_spec(0) == 1,
        level_spec(s) <= level_spec(t),
        level_spec(s) >= 1,
{
    let a = s / (SCORE_PER_STEP as int);
    let b = t / (SCORE_PER_STEP as int);
    assert(a <= b) by (nonlinear_arith)
        requires
            0 <= s <= t,
            a == s / (SCORE_PER_STEP as int),
            b == t / (SCORE_PER_STEP as int),
    ;
    if a != 0 {
        lemma_isqrt_monotone(2 * a, 2 * b);
        lemma_isqrt_monotone(2, 2 * a);
        lemma_isqrt_two();
    } else if b != 0 {
        lemma_isqrt_monotone(2, 2 * b);
        lemma_isqrt_two();
    }
}

} // verus!
