//! Exact shares of a whole: fractions brought over their least common
//! denominator, so that each becomes a whole-number part of a common whole.

use vstd::arithmetic::div_mod::{
    lemma_div_nonincreasing, lemma_fundamental_div_mod, lemma_mod_multiples_basic,
};
use vstd::prelude::*;

use crate::divisors::{gcd_u128, lcm, lemma_gcd_divides, lemma_lcm_multiple};

verus! {

/// The share `part / whole` of a whole; a whole of zero stands for a share
/// of zero.
#[derive(Clone, Copy, Debug, PartialEq, Eq, Structural)]
pub struct Share {
    pub part: u64,
    pub whole: u64,
}

impl Share {
    /// A part never exceeds its whole.
    pub open spec fn wf(self) -> bool {
        self.part <= self.whole
    }
}

/// Every fraction of the sequence has a positive denominator.
pub open spec fn denominators_positive(fs: Seq<(nat, nat)>) -> bool {
    forall|i: int| 0 <= i < fs.len() ==> #[trigger] fs[i].1 > 0
}

/// The least common multiple of the denominators (1 for no fractions).
pub open spec fn common_denominator(fs: Seq<(nat, nat)>) -> nat
    decreases fs.len(),
{
    if fs.len() == 0 {
        1
    } else {
        lcm(common_denominator(fs.drop_last()), fs.last().1)
    }
}

/// The numerator of the fraction `f` written over the denominator `m`.
pub open spec fn part_over(f: (nat, nat), m: nat) -> nat {
    f.0 * (m / f.1)
}

/// The sum of the numerators of all fractions written over `m`.
pub open spec fn total_over(fs: Seq<(nat, nat)>, m: nat) -> nat
    decreases fs.len(),
{
    if fs.len() == 0 {
        0
    } else {
        total_over(fs.drop_last(), m) + part_over(fs.last(), m)
    }
}

/// The part of the `i`-th fraction over the common denominator.
pub open spec fn common_part(fs: Seq<(nat, nat)>, i: int) -> nat {
    part_over(fs[i], common_denominator(fs))
}

/// The sum of all fractions over the common denominator.
pub open spec fn common_whole(fs: Seq<(nat, nat)>) -> nat {
    total_over(fs, common_denominator(fs))
}

/// The common denominator and the whole both fit in 64 bits.
pub open spec fn fits_u64(fs: Seq<(nat, nat)>) -> bool {
    common_denominator(fs) <= u64::MAX && common_whole(fs) <= u64::MAX
}

/// A pair of machine integers read as a fraction.
pub open spec fn fraction_view(f: (u64, u128)) -> (nat, nat) {
    (f.0 as nat, f.1 as nat)
}

/// Divisibility is transitive.
pub proof fn lemma_divides_trans(a: nat, b: nat, c: nat)
    requires
        a > 0,
        b > 0,
        b % a == 0,
        c % b == 0,
    ensures
        c % a == 0,
{
    lemma_fundamental_div_mod(b as int, a as int);
    lemma_fundamental_div_mod(c as int, b as int);
    let j = b / a;
    let k = c / b;
    assert(c == (j * k) * a) by (nonlinear_arith)
        requires
            b == a * j,
            c == b * k,
    ;
    lemma_mod_multiples_basic((j * k) as int, a as int);
}

/// The common denominator is positive, and a multiple of each denominator.
pub proof fn lemma_common_denominator(fs: Seq<(nat, nat)>)
    requires
        denominators_positive(fs),
    ensures
        common_denominator(fs) > 0,
        forall|i: int| 0 <= i < fs.len() ==> common_denominator(fs) % #[trigger] fs[i].1 == 0,
    decreases fs.len(),
{
    if fs.len() > 0 {
        let init = fs.drop_last();
        lemma_common_denominator(init);
        let m = common_denominator(init);
        lemma_lcm_multiple(m, fs.last().1);
        assert forall|i: int| 0 <= i < fs.len() implies common_denominator(fs) % #[trigger] fs[i].1
            == 0 by {
            if i < fs.len() - 1 {
                assert(init[i] == fs[i]);
                lemma_divides_trans(fs[i].1, m, common_denominator(fs));
            }
        }
    }
}

/// The common denominator of a prefix is no larger than that of the whole
/// sequence.
pub proof fn lemma_common_denominator_prefix(fs: Seq<(nat, nat)>, k: int)
    requires
        denominators_positive(fs),
        0 <= k <= fs.len(),
    ensures
        common_denominator(fs.take(k)) <= common_denominator(fs),
    decreases fs.len(),
{
    if k == fs.len() {
        assert(fs.take(k) =~= fs);
    } else {
        let init = fs.drop_last();
        lemma_common_denominator_prefix(init, k);
        assert(init.take(k) =~= fs.take(k));
        lemma_common_denominator(init);
        lemma_lcm_multiple(common_denominator(init), fs.last().1);
    }
}

/// Taking one more element of a prefix adds its part to the total.
pub proof fn lemma_total_step(fs: Seq<(nat, nat)>, m: nat, k: int)
    requires
        0 <= k < fs.len(),
    ensures
        total_over(fs.take(k + 1), m) == total_over(fs.take(k), m) + part_over(fs[k], m),
{
    assert(fs.take(k + 1).drop_last() =~= fs.take(k));
}

/// The total over a prefix is no larger than the total over the whole
/// sequence.
pub proof fn lemma_total_prefix(fs: Seq<(nat, nat)>, m: nat, k: int)
    requires
        0 <= k <= fs.len(),
    ensures
        total_over(fs.take(k), m) <= total_over(fs, m),
    decreases fs.len(),
{
    if k == fs.len() {
        assert(fs.take(k) =~= fs);
    } else {
        let init = fs.drop_last();
        lemma_total_prefix(init, m, k);
        assert(init.take(k) =~= fs.take(k));
    }
}

/// No single part exceeds the total.
pub proof fn lemma_part_le_total(fs: Seq<(nat, nat)>, m: nat, i: int)
    requires
        0 <= i < fs.len(),
    ensures
        part_over(fs[i], m) <= total_over(fs, m),
{
    lemma_total_step(fs, m, i);
    lemma_total_prefix(fs, m, i + 1);
}

/// Writes every fraction over the least common denominator of all of them.
///
/// Gives `None` exactly when that denominator or the sum of the numerators
/// over it does not fit in 64 bits.
pub fn common_shares(fs: &Vec<(u64, u128)>) -> (r: Option<Vec<Share>>)
    requires
        denominators_positive(fs@.map_values(|f: (u64, u128)| fraction_view(f))),
    ensures
        r is Some <==> fits_u64(fs@.map_values(|f: (u64, u128)| fraction_view(f))),
        r matches Some(v) ==> {
            &&& v.len() == fs.len()
            &&& forall|i: int|
                0 <= i < v.len() ==> {
                    &&& #[trigger] v[i].part == common_part(
                        fs@.map_values(|f: (u64, u128)| fraction_view(f)),
                        i,
                    )
                    &&& v[i].whole == common_whole(
                        fs@.map_values(|f: (u64, u128)| fraction_view(f)),
                    )
                    &&& v[i].wf()
                }
        },
{
    let ghost view = fs@.map_values(|f: (u64, u128)| fraction_view(f));
    let n = fs.len();
    let mut m: u128 = 1;
    let mut i: usize = 0;
    while i < n
        invariant
            n == fs.len(),
            view == fs@.map_values(|f: (u64, u128)| fraction_view(f)),
            denominators_positive(view),
            i <= n,
            m as nat == common_denominator(view.take(i as int)),
            0 < m <= u64::MAX,
        decreases n - i,
    {
        let d = fs[i].1;
        proof {
            assert(view[i as int].1 == d);
            assert(view.take(i + 1).drop_last() =~= view.take(i as int));
            assert(view.take(i + 1).last() == view[i as int]);
            lemma_common_denominator_prefix(view, i + 1);
            lemma_lcm_multiple(m as nat, d as nat);
        }
        if d > u64::MAX as u128 {
            return None;
        }
        let g = gcd_u128(m, d);
        proof {
            lemma_gcd_divides(m as nat, d as nat);
            lemma_div_nonincreasing(m as int, g as int);
            assert((m / g) * d <= 0xffff_ffff_ffff_ffffu128 * 0xffff_ffff_ffff_ffffu128)
                by (nonlinear_arith)
                requires
                    m / g <= 0xffff_ffff_ffff_ffffu128,
                    d <= 0xffff_ffff_ffff_ffffu128,
            ;
        }
        let next = m / g * d;
        if next > u64::MAX as u128 {
            return None;
        }
        m = next;
        i = i + 1;
    }
    assert(view.take(n as int) =~= view);
    proof {
        lemma_common_denominator(view);
    }
    let mut total: u128 = 0;
    let mut parts: Vec<u64> = Vec::new();
    let mut i: usize = 0;
    while i < n
        invariant
            n == fs.len(),
            view == fs@.map_values(|f: (u64, u128)| fraction_view(f)),
            denominators_positive(view),
            m as nat == common_denominator(view),
            0 < m <= u64::MAX,
            i <= n,
            total as nat == total_over(view.take(i as int), m as nat),
            total <= u64::MAX,
            parts.len() == i,
            forall|j: int| 0 <= j < i ==> #[trigger] parts[j] == part_over(view[j], m as nat),
            forall|j: int| 0 <= j < i ==> #[trigger] parts[j] <= common_whole(view),
        decreases n - i,
    {
        let (a, d) = fs[i];
        proof {
            assert(view[i as int] == (a as nat, d as nat));
            lemma_div_nonincreasing(m as int, d as int);
            assert((a as u128) * (m / d) <= 0xffff_ffff_ffff_ffffu128 * 0xffff_ffff_ffff_ffffu128)
                by (nonlinear_arith)
                requires
                    m / d <= 0xffff_ffff_ffff_ffffu128,
                    a <= 0xffff_ffff_ffff_ffffu128,
            ;
            lemma_total_step(view, m as nat, i as int);
            lemma_total_prefix(view, m as nat, i + 1);
            lemma_part_le_total(view, m as nat, i as int);
        }
        let p = (a as u128) * (m / d);
        let next = total + p;
        if next > u64::MAX as u128 {
            return None;
        }
        assert(p <= common_whole(view));
        parts.push(p as u64);
        total = next;
        i = i + 1;
    }
    assert(view.take(n as int) =~= view);
    assert(total == common_whole(view));
    let mut shares: Vec<Share> = Vec::new();
    let mut i: usize = 0;
    while i < n
        invariant
            n == parts.len(),
            i <= n,
            shares.len() == i,
            forall|j: int| 0 <= j < n ==> #[trigger] parts[j] <= total,
            forall|j: int|
                0 <= j < i ==> #[trigger] shares[j] == (Share { part: parts[j], whole: total as u64 }),
        decreases n - i,
    {
        shares.push(Share { part: parts[i], whole: total as u64 });
        i = i + 1;
    }
    Some(shares)
}

} // verus!
