//! Greatest common divisors and least common multiples.

use vstd::arithmetic::div_mod::{lemma_fundamental_div_mod, lemma_mod_multiples_basic};
use vstd::prelude::*;

verus! {

/// Euclid's greatest common divisor.
pub open spec fn gcd(a: nat, b: nat) -> nat
    decreases b,
{
    if b == 0 {
        a
    } else {
        gcd(b, a % b)
    }
}

/// The least common multiple of two positive numbers.
pub open spec fn lcm(a: nat, b: nat) -> nat {
    (a / gcd(a, b)) * b
}

/// The greatest common divisor is positive and divides both numbers.
pub proof fn lemma_gcd_divides(a: nat, b: nat)
    requires
        a > 0 || b > 0,
    ensures
        gcd(a, b) > 0,
        a % gcd(a, b) == 0,
        b % gcd(a, b) == 0,
    decreases b,
{
    if b == 0 {
        lemma_mod_multiples_basic(1, a as int);
        lemma_mod_multiples_basic(0, a as int);
    } else {
        let r = a % b;
        lemma_gcd_divides(b, r);
        let g = gcd(b, r);
        let x = b / g;
        let y = r / g;
        let q = a / b;
        lemma_fundamental_div_mod(b as int, g as int);
        lemma_fundamental_div_mod(r as int, g as int);
        lemma_fundamental_div_mod(a as int, b as int);
        assert(b == g * x);
        assert(r == g * y);
        assert(a == b * q + r);
        assert(a == (x * q + y) * g) by (nonlinear_arith)
            requires
                b == g * x,
                r == g * y,
                a == b * q + r,
        ;
        lemma_mod_multiples_basic((x * q + y) as int, g as int);
    }
}

/// The least common multiple of two positive numbers is a positive multiple
/// of each, and no smaller than either.
pub proof fn lemma_lcm_multiple(a: nat, b: nat)
    requires
        a > 0,
        b > 0,
    ensures
        lcm(a, b) > 0,
        lcm(a, b) % a == 0,
        lcm(a, b) % b == 0,
        lcm(a, b) >= a,
        lcm(a, b) >= b,
{
    lemma_gcd_divides(a, b);
    let g = gcd(a, b);
    let x = a / g;
    let y = b / g;
    lemma_fundamental_div_mod(a as int, g as int);
    lemma_fundamental_div_mod(b as int, g as int);
    assert(a == g * x);
    assert(b == g * y);
    assert(x > 0 && y > 0) by (nonlinear_arith)
        requires
            a == g * x,
            b == g * y,
            a > 0,
            b > 0,
            g > 0,
            x >= 0,
            y >= 0,
    ;
    assert(lcm(a, b) == x * b);
    assert(x * b == y * a) by (nonlinear_arith)
        requires
            a == g * x,
            b == g * y,
    ;
    assert(x * b >= b && y * a >= a) by (nonlinear_arith)
        requires
            x > 0,
            y > 0,
            a > 0,
            b > 0,
    ;
    lemma_mod_multiples_basic(x as int, b as int);
    lemma_mod_multiples_basic(y as int, a as int);
}

/// Euclid's algorithm.
pub fn gcd_u128(a: u128, b: u128) -> (r: u128)
    ensures
        r == gcd(a as nat, b as nat),
{
    let mut x = a;
    let mut y = b;
    while y != 0
        invariant
            gcd(x as nat, y as nat) == gcd(a as nat, b as nat),
        decreases y,
    {
        let t = x % y;
        x = y;
        y = t;
    }
    x
}

} // verus!
