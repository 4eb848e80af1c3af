//! Ratios of counts at single precision: 24 significant bits, ties to even.
//!
//! A ratio is held as an exact fraction of integers, so that it can be compared and printed
//! without rounding a second time.

use vstd::prelude::*;

use crate::text::{dec, dec_text, digit};

verus! {

/// Two to the power of 23: the least integer with 24 bits.
pub const BITS_23: u128 = 0x80_0000;

/// Two to the power of 24: the least integer with 25 bits.
pub const BITS_24: u128 = 0x100_0000;

/// The integer nearest to `n / d`, the even one of two that are equally near.
pub open spec fn half_even(n: nat, d: nat) -> nat {
    let q = n / d;
    let r = n % d;
    if 2 * r < d || (2 * r == d && q % 2 == 0) {
        q
    } else {
        q + 1
    }
}

/// The power of two that `n` is counted in when it keeps 24 bits.
pub open spec fn unit(n: nat) -> nat
    decreases n,
{
    if n < BITS_24 {
        1
    } else {
        2 * unit(n / 2)
    }
}

/// A count at single precision.
pub open spec fn single(n: nat) -> nat {
    half_even(n, unit(n)) * unit(n)
}

/// The least power of two that lifts `a / b` to 24 bits.
pub open spec fn lift(a: nat, b: nat) -> nat
    decreases
            (if a < BITS_23 * b {
                BITS_23 * b - a
            } else {
                0
            }),
{
    if a == 0 || a >= BITS_23 * b {
        1
    } else {
        2 * lift(2 * a, b)
    }
}

/// The least power of two that lowers `a / b` to 24 bits.
pub open spec fn lower(a: nat, b: nat) -> nat
    decreases
            (if a >= BITS_24 * b {
                1 + a - BITS_24 * b
            } else {
                0
            }),
{
    if b == 0 || a < BITS_24 * b {
        1
    } else {
        2 * lower(a, 2 * b)
    }
}

/// A ratio as a fraction of integers.
pub struct RatioView {
    pub num: nat,
    pub den: nat,
}

/// The quotient of two counts at single precision, each count taken at single precision first.
pub open spec fn quotient(words: nat, budget: nat) -> RatioView {
    let a = single(words);
    let b = single(budget);
    let up = lift(a, b);
    let down = lower(a, b);
    RatioView { num: half_even(a * up, b * down) * down, den: up }
}

/// `r` is below `num / den`.
pub open spec fn below(r: RatioView, num: nat, den: nat) -> bool {
    r.num * den < num * r.den
}

/// `r` is above `num / den`.
pub open spec fn above(r: RatioView, num: nat, den: nat) -> bool {
    r.num * den > num * r.den
}

/// A ratio with two decimals, ties to even.
pub open spec fn two_decimals(r: RatioView) -> Seq<char> {
    let h = half_even(r.num * 100, r.den);
    dec(h / 100) + seq!['.', digit((h % 100) / 10), digit(h % 10)]
}

/// The quotient of two counts at single precision.
#[derive(Debug, Clone, Copy)]
pub struct Ratio {
    num: u128,
    den: u128,
}

impl View for Ratio {
    type V = RatioView;

    closed spec fn view(&self) -> RatioView {
        RatioView { num: self.num as nat, den: self.den as nat }
    }
}

fn nearest(n: u128, d: u128) -> (res: u128)
    requires
        0 < d <= 0xffff_ffff_ffff_ffff_ffff_ffff_ffff,
        n <= 0xffff_ffff_ffff_ffff_ffff_ffff_ffff,
    ensures
        res == half_even(n as nat, d as nat),
{
    let q: u128 = n / d;
    let r: u128 = n % d;
    assert(q <= n) by (nonlinear_arith)
        requires
            q == n / d,
            d > 0,
    ;
    if 2 * r < d || (2 * r == d && q % 2 == 0) {
        q
    } else {
        q + 1
    }
}

pub proof fn lemma_half_even_bound(n: nat, d: nat, k: nat)
    requires
        d > 0,
        n < k * d,
    ensures
        half_even(n, d) <= k,
{
    assert(n / d < k) by (nonlinear_arith)
        requires
            d > 0,
            n < k * d,
    ;
}

proof fn lemma_half_even_positive(n: nat, d: nat)
    requires
        d > 0,
        n >= d,
    ensures
        half_even(n, d) >= 1,
{
    assert(n / d >= 1) by (nonlinear_arith)
        requires
            d > 0,
            n >= d,
    ;
}

proof fn lemma_unit(n: nat)
    ensures
        unit(n) >= 1,
        n < BITS_24 * unit(n),
        n > 0 ==> unit(n) <= n,
    decreases n,
{
    if n >= BITS_24 {
        lemma_unit(n / 2);
        let u = unit(n / 2);
        assert(n < BITS_24 * (2 * u)) by (nonlinear_arith)
            requires
                n / 2 < BITS_24 * u,
        ;
    }
}

proof fn lemma_unit_step(n: nat, x: nat, u: nat)
    requires
        unit(n) == u * unit(x),
        x >= BITS_24,
    ensures
        unit(n) == (2 * u) * unit(x / 2),
{
    assert(u * (2 * unit(x / 2)) == (2 * u) * unit(x / 2)) by (nonlinear_arith);
}

fn round_single(n: usize) -> (res: u128)
    ensures
        res == single(n as nat),
        res <= 0x1_0000_0000_0000_0000,
        n > 0 ==> res > 0,
{
    let mut u: u128 = 1;
    let mut x: u128 = n as u128;
    while x >= BITS_24
        invariant
            unit(n as nat) == u * unit(x as nat),
            0 < u,
            u * x <= n,
        decreases x,
    {
        proof {
            lemma_unit_step(n as nat, x as nat, u as nat);
            assert(2 * u * (x / 2) <= u * x) by (nonlinear_arith)
                requires
                    u > 0,
            ;
            assert(2 * u <= u * x) by (nonlinear_arith)
                requires
                    x >= 2,
                    u > 0,
            ;
        }
        u = 2 * u;
        x = x / 2;
    }
    proof {
        lemma_unit(n as nat);
        assert(unit(n as nat) == u) by {
            assert(unit(x as nat) == 1);
            assert(u * 1 == u);
        }
        lemma_half_even_bound(n as nat, u as nat, BITS_24 as nat);
        if n > 0 {
            lemma_half_even_positive(n as nat, u as nat);
        } else {
            assert(half_even(0, u as nat) == 0) by (nonlinear_arith)
                requires
                    u > 0,
            ;
        }
        lemma_single_bound(n as nat);
    }
    let m: u128 = nearest(n as u128, u);
    proof {
        assert(m * u == single(n as nat));
        assert(n > 0 ==> m * u > 0) by (nonlinear_arith)
            requires
                n > 0 ==> m >= 1,
                u > 0,
        ;
    }
    m * u
}

/// A count and its rounded form lie within one unit; no count of a machine word passes the next
/// power of two.
proof fn lemma_single_bound(n: nat)
    requires
        n <= usize::MAX,
    ensures
        single(n) <= 0x1_0000_0000_0000_0000,
{
    lemma_unit(n);
    let u = unit(n);
    lemma_half_even_bound(n, u, BITS_24 as nat);
    let h = half_even(n, u);
    if n < BITS_24 {
        assert(h * 1 == h);
    } else {
        lemma_unit_lower(n);
        assert(h * u <= BITS_24 * u) by (nonlinear_arith)
            requires
                h <= BITS_24,
        ;
        reveal_with_fuel(two_to, 41);
        assert(two_to(40) == 0x100_0000_0000);
        lemma_unit_cap(n, 40);
        assert(BITS_24 * u <= 0x1_0000_0000_0000_0000);
    }
}

proof fn lemma_unit_lower(n: nat)
    requires
        n >= BITS_24,
    ensures
        BITS_23 * unit(n) <= n,
    decreases n,
{
    let u = unit(n / 2);
    if n / 2 >= BITS_24 {
        lemma_unit_lower(n / 2);
        assert(BITS_23 * (2 * u) <= n) by (nonlinear_arith)
            requires
                BITS_23 * u <= n / 2,
        ;
    }
}

pub open spec fn two_to(k: nat) -> nat
    decreases k,
{
    if k == 0 {
        1
    } else {
        2 * two_to((k - 1) as nat)
    }
}

proof fn lemma_unit_cap(n: nat, k: nat)
    requires
        n < BITS_24 * two_to(k),
    ensures
        unit(n) <= two_to(k),
    decreases k,
{
    if n >= BITS_24 {
        assert(k > 0);
        let t = two_to((k - 1) as nat);
        assert(n / 2 < BITS_24 * t) by (nonlinear_arith)
            requires
                n < BITS_24 * (2 * t),
        ;
        lemma_unit_cap(n / 2, (k - 1) as nat);
    } else {
        lemma_two_to_positive(k);
    }
}

pub proof fn lemma_two_to_positive(k: nat)
    ensures
        two_to(k) >= 1,
    decreases k,
{
    if k > 0 {
        lemma_two_to_positive((k - 1) as nat);
    }
}

fn lift_of(a: u128, b: u128) -> (res: u128)
    requires
        0 < a <= 0x1_0000_0000_0000_0000,
        0 < b <= 0x1_0000_0000_0000_0000,
    ensures
        res == lift(a as nat, b as nat),
        0 < res <= 0x100_0000_0000_0000_0000_0000,
        a * res < BITS_24 * b || res == 1,
        a >= BITS_23 * b ==> res == 1,
{
    let mut up: u128 = 1;
    let mut x: u128 = a;
    while x < BITS_23 * b
        invariant
            0 < a,
            0 < b <= 0x1_0000_0000_0000_0000,
            lift(a as nat, b as nat) == up * lift(x as nat, b as nat),
            x == a * up,
            0 < up,
            up == 1 || x < BITS_24 * b,
            up == 1 || a < BITS_23 * b,
        decreases BITS_24 * b - x,
    {
        proof {
            let t = lift((2 * x) as nat, b as nat);
            assert(up * (2 * t) == (2 * up) * t) by (nonlinear_arith);
            assert(up <= x) by (nonlinear_arith)
                requires
                    x == a * up,
                    a > 0,
            ;
            assert(a * (2 * up) == 2 * (a * up)) by (nonlinear_arith);
        }
        up = 2 * up;
        x = 2 * x;
    }
    proof {
        assert(up * 1 == up);
        assert(up <= x) by (nonlinear_arith)
            requires
                x == a * up,
                a > 0,
        ;
    }
    up
}

fn lower_of(a: u128, b: u128) -> (res: u128)
    requires
        a <= 0x1_0000_0000_0000_0000,
        0 < b <= 0x1_0000_0000_0000_0000,
    ensures
        res == lower(a as nat, b as nat),
        0 < res,
        b * res <= 0x1_0000_0000_0000_0000,
        a < BITS_24 * (b * res),
        a < BITS_24 * b ==> res == 1,
{
    let mut down: u128 = 1;
    let mut y: u128 = b;
    while a >= BITS_24 * y
        invariant
            a <= 0x1_0000_0000_0000_0000,
            0 < b <= 0x1_0000_0000_0000_0000,
            lower(a as nat, b as nat) == down * lower(a as nat, y as nat),
            y == b * down,
            0 < down,
            y <= 0x1_0000_0000_0000_0000,
            down == 1 || a >= BITS_24 * b,
        decreases 2 * a + 1 - BITS_24 * y,
    {
        proof {
            let t = lower(a as nat, (2 * y) as nat);
            assert(down * (2 * t) == (2 * down) * t) by (nonlinear_arith);
            assert(down <= y) by (nonlinear_arith)
                requires
                    y == b * down,
                    b > 0,
            ;
            assert(b * (2 * down) == 2 * (b * down)) by (nonlinear_arith);
            assert(y > 0) by (nonlinear_arith)
                requires
                    y == b * down,
                    b > 0,
                    down > 0,
            ;
        }
        down = 2 * down;
        y = 2 * y;
    }
    assert(down * 1 == down);
    down
}

impl Ratio {
    #[verifier::type_invariant]
    closed spec fn in_range(self) -> bool {
        self.num <= 0x100_0000_0000_0000_0000_0000 && 0 < self.den
            <= 0x100_0000_0000_0000_0000_0000
    }

    /// The quotient of two counts, the second not zero.
    pub fn of(words: usize, budget: usize) -> (res: Ratio)
        requires
            budget > 0,
        ensures
            res@ == quotient(words as nat, budget as nat),
    {
        let a: u128 = round_single(words);
        let b: u128 = round_single(budget);
        if words == 0 {
            proof {
                assert(single(0) == 0) by {
                    assert(unit(0) == 1);
                    assert(0nat / 1nat == 0 && 0nat % 1nat == 0);
                    assert(half_even(0, 1) == 0);
                    assert(0nat * 1nat == 0);
                }
                let u = lower(0, b as nat);
                assert(u == 1);
                assert(0 * lift(0, b as nat) == 0);
                assert(b * 1 == b);
                assert(half_even(0, b as nat) == 0) by {
                    assert(0nat / (b as nat) == 0) by (nonlinear_arith)
                        requires
                            b > 0,
                    ;
                    assert(0nat % (b as nat) == 0) by (nonlinear_arith)
                        requires
                            b > 0,
                    ;
                }
            }
            return Ratio { num: 0, den: 1 };
        }
        let up: u128 = lift_of(a, b);
        let down: u128 = lower_of(a, b);
        proof {
            assert(a * up < BITS_24 * (b * down)) by {
                assert(b * down >= b) by (nonlinear_arith)
                    requires
                        down > 0,
                        b > 0,
                ;
                if up == 1 {
                    assert(a * 1 == a);
                }
            }
            assert(b * down > 0) by (nonlinear_arith)
                requires
                    b > 0,
                    down > 0,
            ;
            assert(down <= b * down) by (nonlinear_arith)
                requires
                    b > 0,
                    down > 0,
            ;
            lemma_half_even_bound((a * up) as nat, (b * down) as nat, BITS_24 as nat);
        }
        let m: u128 = nearest(a * up, b * down);
        proof {
            assert(m * down <= BITS_24 * 0x1_0000_0000_0000_0000) by (nonlinear_arith)
                requires
                    m <= BITS_24,
                    down <= 0x1_0000_0000_0000_0000,
            ;
        }
        Ratio { num: m * down, den: up }
    }

    /// Whether the ratio is below `num / den`.
    pub fn is_below(&self, num: u32, den: u32) -> (res: bool)
        ensures
            res == below(self@, num as nat, den as nat),
    {
        proof {
            use_type_invariant(self);
            lemma_fits(self.num, den);
            lemma_fits(self.den, num);
        }
        self.num * (den as u128) < (num as u128) * self.den
    }

    /// Whether the ratio is above `num / den`.
    pub fn is_above(&self, num: u32, den: u32) -> (res: bool)
        ensures
            res == above(self@, num as nat, den as nat),
    {
        proof {
            use_type_invariant(self);
            lemma_fits(self.num, den);
            lemma_fits(self.den, num);
        }
        self.num * (den as u128) > (num as u128) * self.den
    }

    /// The ratio with two decimals.
    pub fn to_text(&self) -> (res: String)
        ensures
            res@ == two_decimals(self@),
    {
        proof {
            use_type_invariant(self);
        }
        let h: u128 = nearest(self.num * 100, self.den);
        let mut s = dec_text(h / 100);
        s.push('.');
        s.push((48 + ((h % 100) / 10) as u8) as char);
        s.push((48 + (h % 10) as u8) as char);
        assert(s@ =~= two_decimals(self@));
        s
    }
}

proof fn lemma_fits(x: u128, k: u32)
    requires
        x <= 0x100_0000_0000_0000_0000_0000,
    ensures
        x * (k as u128) <= u128::MAX,
        (k as u128) * x <= u128::MAX,
{
    assert(x * (k as u128) <= 0x100_0000_0000_0000_0000_0000 * 0xffff_ffff) by (nonlinear_arith)
        requires
            x <= 0x100_0000_0000_0000_0000_0000,
            k <= 0xffff_ffff,
    ;
    assert((k as u128) * x == x * (k as u128)) by (nonlinear_arith);
}

} // verus!
