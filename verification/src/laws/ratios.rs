//! Laws of ratios: within the reach of single precision the limits are exact.

use vstd::prelude::*;

use crate::lints::{out_of_proportion, COVERAGE_FLOOR_DEN, COVERAGE_FLOOR_NUM};
use crate::ratio::{
    below, half_even, lift, lower, quotient, single, two_decimals, two_to, RatioView, BITS_23,
    BITS_24,
};
use crate::text::dec;

verus! {

proof fn lemma_half_even(n: nat, d: nat)
    requires
        d > 0,
    ensures
        2 * half_even(n, d) * d <= 2 * n + d,
        2 * half_even(n, d) * d + d >= 2 * n,
{
    let q = n / d;
    let r = n % d;
    assert(n == q * d + r && r < d) by {
        vstd::arithmetic::div_mod::lemma_fundamental_div_mod(n as int, d as int);
        vstd::arithmetic::div_mod::lemma_mod_bound(n as int, d as int);
        assert(d * q == q * d) by (nonlinear_arith);
    }
    assert(2 * (q + 1) * d == 2 * q * d + 2 * d) by (nonlinear_arith);
    assert(2 * q * d == 2 * (q * d)) by (nonlinear_arith);
}

/// Counts below two to the power of 24 are exact.
proof fn lemma_single_exact(n: nat)
    requires
        n < BITS_24,
    ensures
        single(n) == n,
{
    assert(n / 1 == n && n % 1 == 0);
    assert(n * 1 == n);
}

proof fn lemma_lift(a: nat, b: nat)
    requires
        a > 0,
        b > 0,
    ensures
        lift(a, b) >= 1,
        a * lift(a, b) >= BITS_23 * b,
        lift(a, b) == 1 || a * lift(a, b) < BITS_24 * b,
        lift(a, b) == 1 || lift(a, b) % 2 == 0,
        exists|k: nat| lift(a, b) == #[trigger] two_to(k),
    decreases
            (if a < BITS_23 * b {
                BITS_23 * b - a
            } else {
                0
            }),
{
    if a < BITS_23 * b {
        lemma_lift(2 * a, b);
        let t = lift(2 * a, b);
        assert(a * (2 * t) == (2 * a) * t) by (nonlinear_arith);
        if t == 1 {
            assert((2 * a) * 1 == 2 * a);
        }
        let k = choose|k: nat| t == #[trigger] two_to(k);
        assert(lift(a, b) == two_to(k + 1));
    } else {
        assert(a * 1 == a);
        assert(lift(a, b) == two_to(0));
    }
}

/// A power of two beyond two to the power of 23 is two to the power of 24 or twice that at least.
proof fn lemma_powers(k: nat)
    ensures
        k <= 22 ==> two_to(k) <= 0x40_0000,
        k == 23 ==> two_to(k) == 0x80_0000,
        k == 24 ==> two_to(k) == 0x100_0000,
        k >= 25 ==> two_to(k) >= 0x200_0000,
    decreases k,
{
    reveal_with_fuel(two_to, 26);
    if k > 25 {
        lemma_powers((k - 1) as nat);
    } else if 0 < k <= 22 {
        lemma_powers((k - 1) as nat);
        lemma_small_powers(k);
    }
}

proof fn lemma_small_powers(k: nat)
    requires
        k <= 22,
    ensures
        two_to(k) <= 0x40_0000,
    decreases 22 - k,
{
    reveal_with_fuel(two_to, 24);
    if k < 22 {
        lemma_small_powers(k + 1);
    }
}

/// What the quotient of two counts is when neither needs rounding and it does not overflow.
proof fn lemma_small_quotient(w: nat, b: nat)
    requires
        0 < w < BITS_24,
        0 < b < BITS_24,
    ensures
        quotient(w, b) == (RatioView { num: half_even(w * lift(w, b), b), den: lift(w, b) }),
        2 * half_even(w * lift(w, b), b) * b <= 2 * (w * lift(w, b)) + b,
        2 * half_even(w * lift(w, b), b) * b + b >= 2 * (w * lift(w, b)),
{
    lemma_single_exact(w);
    lemma_single_exact(b);
    assert(w < BITS_24 * b) by (nonlinear_arith)
        requires
            w < BITS_24,
            b >= 1,
    ;
    assert(lower(w, b) == 1);
    assert(b * 1 == b);
    let m = half_even(w * lift(w, b), b);
    assert(m * 1 == m);
    lemma_half_even(w * lift(w, b), b);
}

/// Up to sixteen million words and as large a budget, a section is out of proportion exactly when
/// it has fewer than half or more than twice the words of its budget.
pub proof fn proportion_is_exact(words: nat, budget: nat)
    requires
        words < BITS_24,
        0 < budget < BITS_24,
    ensures
        out_of_proportion(words, budget) <==> 2 * words < budget || words > 2 * budget,
{
    let (w, b) = (words, budget);
    if w == 0 {
        lemma_zero_quotient(b);
    } else {
        lemma_small_quotient(w, b);
        lemma_lift(w, b);
        let up = lift(w, b);
        let m = half_even(w * up, b);
        // Below one half.
        if 2 * w < b {
            assert(2 * m < up) by (nonlinear_arith)
                requires
                    2 * m * b <= 2 * (w * up) + b,
                    2 * w + 1 <= b,
                    b < BITS_24,
                    w * up >= BITS_23 * b,
                    up >= 1,
                    w > 0,
            ;
        } else {
            assert(2 * m + 1 >= up) by (nonlinear_arith)
                requires
                    2 * m * b + b >= 2 * (w * up),
                    2 * w >= b,
                    b > 0,
            ;
            if up == 1 {
                assert(m >= 1) by (nonlinear_arith)
                    requires
                        2 * m * b + b >= 2 * (w * up),
                        w * up >= BITS_23 * b,
                        b > 0,
                ;
            }
            assert(2 * m >= up);
        }
        // Above two.
        if w > 2 * b {
            if up == 1 {
                assert(m > 2) by (nonlinear_arith)
                    requires
                        2 * m * b + b >= 2 * (w * up),
                        w * up >= BITS_23 * b,
                        b > 0,
                ;
            } else {
                assert(2 * up > b) by (nonlinear_arith)
                    requires
                        w * up >= BITS_23 * b,
                        w < BITS_24,
                        up >= 1,
                        b > 0,
                ;
                assert(m > 2 * up) by (nonlinear_arith)
                    requires
                        2 * m * b + b >= 2 * (w * up),
                        w >= 2 * b + 1,
                        2 * up > b,
                        b > 0,
                ;
            }
        } else {
            assert(m <= 2 * up) by (nonlinear_arith)
                requires
                    2 * m * b <= 2 * (w * up) + b,
                    w <= 2 * b,
                    b > 0,
            ;
        }
    }
}

proof fn lemma_zero_quotient(b: nat)
    requires
        0 < b < BITS_24,
    ensures
        quotient(0, b) == (RatioView { num: 0, den: 1 }),
{
    lemma_single_exact(0);
    lemma_single_exact(b);
    assert(0 * 1 == 0);
    assert(b * 1 == b);
    assert(0nat / b == 0 && 0nat % b == 0) by (nonlinear_arith)
        requires
            b > 0,
    ;
}

/// Up to sixteen million claims, the floor of coverage is exactly six tenths.
pub proof fn coverage_floor_is_six_tenths(covered: nat, n_claims: nat)
    requires
        covered <= n_claims,
        0 < n_claims < BITS_24,
    ensures
        below(
            quotient(covered, n_claims),
            COVERAGE_FLOOR_NUM as nat,
            COVERAGE_FLOOR_DEN as nat,
        ) <==> 5 * covered < 3 * n_claims,
{
    let (a, b) = (covered, n_claims);
    if a == 0 {
        lemma_zero_quotient(b);
    } else {
        lemma_small_quotient(a, b);
        lemma_lift(a, b);
        let up = lift(a, b);
        let m = half_even(a * up, b);
        let k = choose|k: nat| up == #[trigger] two_to(k);
        lemma_powers(k);
        if 5 * a < 3 * b {
            assert(10 * (m * b) + 2 * up <= 6 * (b * up) + 5 * b) by (nonlinear_arith)
                requires
                    2 * m * b <= 2 * (a * up) + b,
                    5 * a + 1 <= 3 * b,
            ;
            assert(up > BITS_23) by (nonlinear_arith)
                requires
                    a * up >= BITS_23 * b,
                    5 * a < 3 * b,
                    a > 0,
            ;
            if up == BITS_24 {
                assert(m <= 10066329) by (nonlinear_arith)
                    requires
                        10 * (m * b) + 2 * up <= 6 * (b * up) + 5 * b,
                        up == 0x100_0000,
                        b < 0x100_0000,
                ;
            } else {
                assert(10 * m <= 6 * up + 5) by (nonlinear_arith)
                    requires
                        10 * (m * b) + 2 * up <= 6 * (b * up) + 5 * b,
                        b > 0,
                ;
            }
        } else {
            assert(10 * m + 5 >= 6 * up) by (nonlinear_arith)
                requires
                    2 * m * b + b >= 2 * (a * up),
                    5 * a >= 3 * b,
                    b > 0,
            ;
            assert(up >= BITS_23) by (nonlinear_arith)
                requires
                    a * up >= BITS_23 * b,
                    a <= b,
                    b > 0,
            ;
            assert(3 * up < 5 * BITS_24) by (nonlinear_arith)
                requires
                    a * up < BITS_24 * b,
                    5 * a >= 3 * b,
                    b > 0,
            ;
        }
    }
}

// ── Rounding ─────────────────────────────────────────────────────────────────
/// Rounding gives the nearest integer, and of two that are equally near the even one.
pub proof fn rounding_is_to_the_nearest(n: nat, d: nat)
    requires
        d > 0,
    ensures
        2 * half_even(n, d) * d <= 2 * n + d,
        2 * half_even(n, d) * d + d >= 2 * n,
        2 * half_even(n, d) * d == 2 * n + d || 2 * half_even(n, d) * d + d == 2 * n ==> half_even(
            n,
            d,
        ) % 2 == 0,
{
    lemma_half_even(n, d);
    let q = n / d;
    let r = n % d;
    assert(n == q * d + r && r < d) by {
        vstd::arithmetic::div_mod::lemma_fundamental_div_mod(n as int, d as int);
        vstd::arithmetic::div_mod::lemma_mod_bound(n as int, d as int);
        assert(d * q == q * d) by (nonlinear_arith);
    }
    assert(2 * (q + 1) * d == 2 * q * d + 2 * d) by (nonlinear_arith);
    assert(2 * q * d == 2 * (q * d)) by (nonlinear_arith);
}

/// Below sixteen million, the quotient of two counts is the nearest one of 24 bits: it is counted
/// in parts so fine that it has at least two to the power of 23 of them, and is off by half a part
/// at most. The quotient of nought is nought.
pub proof fn quotients_have_24_bits(words: nat, budget: nat)
    requires
        words < 0x100_0000,
        0 < budget < 0x100_0000,
    ensures
        ({
            let r = quotient(words, budget);
            &&& r.den > 0
            &&& words == 0 ==> r.num == 0
            &&& words > 0 ==> 2 * r.num * budget <= 2 * (words * r.den) + budget && 2 * r.num
                * budget + budget >= 2 * (words * r.den) && words * r.den >= 0x80_0000 * budget
        }),
{
    if words == 0 {
        lemma_zero_quotient(budget);
    } else {
        lemma_small_quotient(words, budget);
        lemma_lift(words, budget);
    }
}

/// A ratio is written in hundredths, the nearest, with the whole before the point and two digits
/// behind it.
pub proof fn ratios_are_written_in_hundredths(r: RatioView)
    requires
        r.den > 0,
    ensures
        exists|h: nat|
            2 * h * r.den <= 2 * (r.num * 100) + r.den && 2 * h * r.den + r.den >= 2 * (r.num * 100)
                && two_decimals(r) == #[trigger] dec(h / 100) + "."@ + dec((h % 100) / 10) + dec(
                h % 10,
            ),
{
    let h = half_even(r.num * 100, r.den);
    lemma_half_even(r.num * 100, r.den);
    reveal_strlit(".");
    assert((h % 100) / 10 < 10);
    assert(two_decimals(r) =~= dec(h / 100) + "."@ + dec((h % 100) / 10) + dec(h % 10));
}

} // verus!
