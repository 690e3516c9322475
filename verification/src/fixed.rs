//! Whole-number arithmetic for quantities in fixed point: quotients rounded
//! down and square roots rounded down.

use vstd::prelude::*;

verus! {

/// Whether `root` is the square root of `n` rounded down.
pub open spec fn is_floor_root(n: int, root: int) -> bool {
    0 <= root && root * root <= n < (root + 1) * (root + 1)
}

/// The square root of `n` rounded down, for `n` that is not negative.
pub open spec fn floor_root(n: int) -> int {
    choose|root: int| is_floor_root(n, root)
}

/// Squaring keeps the order of numbers that are not negative.
pub proof fn lemma_square_order(a: int, b: int)
    requires
        0 <= a < b,
    ensures
        a * a < b * b,
        (a + 1) * (a + 1) <= b * b,
{
    assert(a * a < b * b) by (nonlinear_arith)
        requires
            0 <= a < b,
    ;
    assert((a + 1) * (a + 1) <= b * b) by (nonlinear_arith)
        requires
            0 <= a + 1 <= b,
    ;
}

/// A number has one square root rounded down, and only one.
pub proof fn lemma_floor_root_unique(n: int, root: int)
    requires
        is_floor_root(n, root),
    ensures
        floor_root(n) == root,
{
    let chosen = floor_root(n);
    assert(is_floor_root(n, chosen));
    if chosen < root {
        lemma_square_order(chosen, root);
    }
    if root < chosen {
        lemma_square_order(root, chosen);
    }
}

/// `a / d` rounded down, also where `a` is negative.
pub(crate) fn floor_div(a: i128, d: i128) -> (q: i128)
    requires
        d > 0,
        a > i128::MIN,
    ensures
        q == a / d,
{
    if a >= 0 {
        a / d
    } else {
        let up: i128 = -a;
        let whole: i128 = up / d;
        let q: i128 = if up % d == 0 {
            -whole
        } else {
            -whole - 1
        };
        assert(q == a / d) by (nonlinear_arith)
            requires
                d > 0,
                a < 0,
                up == -a,
                whole == up / d,
                q == if up % d == 0 {
                    -whole
                } else {
                    -whole - 1
                },
        ;
        q
    }
}

/// The square root of `n` rounded down.
pub fn integer_root(n: u128) -> (root: u64)
    ensures
        root == floor_root(n as int),
        is_floor_root(n as int, root as int),
{
    let mut low: u128 = 0;
    let mut high: u128 = 0x1_0000_0000_0000_0000;
    while high - low > 1
        invariant
            low < high <= 0x1_0000_0000_0000_0000,
            low * low <= n,
            n < high * high,
        decreases high - low,
    {
        let middle: u128 = low + (high - low) / 2;
        if middle <= n / middle {
            assert(middle * middle <= n) by (nonlinear_arith)
                requires
                    middle > 0,
                    middle <= n / middle,
            ;
            low = middle;
        } else {
            assert(n < middle * middle) by (nonlinear_arith)
                requires
                    middle > 0,
                    middle > n / middle,
            ;
            high = middle;
        }
    }
    proof {
        lemma_floor_root_unique(n as int, low as int);
    }
    low as u64
}

} // verus!
