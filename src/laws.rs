//! What holds of the shares that the ratio engine computes, for every input.

use vstd::arithmetic::div_mod::lemma_fundamental_div_mod;
use vstd::arithmetic::mul::lemma_mul_equality_converse;
use vstd::prelude::*;

use crate::ratio::{
    all_wf, item_fraction, item_fractions, item_share_of, stack_fraction, stack_fractions,
    stack_share_of, Ingredient,
};
use crate::share::{
    common_denominator, common_part, common_whole, denominators_positive, lemma_common_denominator,
    lemma_part_le_total, lemma_total_step, part_over, total_over,
};

verus! {

/// The sum of the first `n` parts over the common denominator.
pub open spec fn parts_sum(fs: Seq<(nat, nat)>, n: nat) -> nat
    decreases n,
{
    if n == 0 {
        0
    } else {
        parts_sum(fs, (n - 1) as nat) + common_part(fs, n - 1)
    }
}

/// Well-formed ingredients give positive denominators, by stack and by item.
pub proof fn lemma_fractions_positive(ings: Seq<Ingredient>)
    requires
        all_wf(ings),
    ensures
        denominators_positive(stack_fractions(ings)),
        denominators_positive(item_fractions(ings)),
{
    assert forall|i: int| 0 <= i < ings.len() implies #[trigger] stack_fractions(ings)[i].1 > 0 by {
        assert(ings[i].wf());
        let d = ings[i].amount.denom as nat;
        let s = ings[i].stack_size as nat;
        assert(d * s > 0) by (nonlinear_arith)
            requires
                d > 0,
                s > 0,
        ;
    }
    assert forall|i: int| 0 <= i < ings.len() implies #[trigger] item_fractions(ings)[i].1 > 0 by {
        assert(ings[i].wf());
    }
}

/// The first `n` parts add up to the total over the first `n` fractions.
pub proof fn lemma_parts_sum_total(fs: Seq<(nat, nat)>, n: nat)
    requires
        n <= fs.len(),
    ensures
        parts_sum(fs, n) == total_over(fs.take(n as int), common_denominator(fs)),
    decreases n,
{
    if n == 0 {
        assert(fs.take(0) =~= Seq::<(nat, nat)>::empty());
    } else {
        lemma_parts_sum_total(fs, (n - 1) as nat);
        lemma_total_step(fs, common_denominator(fs), n - 1);
    }
}

/// A fraction with a positive numerator has a positive part.
pub proof fn lemma_positive_part(fs: Seq<(nat, nat)>, i: int)
    requires
        denominators_positive(fs),
        0 <= i < fs.len(),
        fs[i].0 > 0,
    ensures
        common_part(fs, i) > 0,
{
    lemma_common_denominator(fs);
    let m = common_denominator(fs);
    let d = fs[i].1;
    lemma_fundamental_div_mod(m as int, d as int);
    assert(m / d > 0) by (nonlinear_arith)
        requires
            m == d * (m / d),
            m > 0,
            d > 0,
    ;
    assert(fs[i].0 * (m / d) > 0) by (nonlinear_arith)
        requires
            fs[i].0 > 0,
            m / d > 0,
    ;
}

/// The stack shares of the ingredients add up to one: their parts sum to
/// the whole, and the whole is positive as soon as one amount is.
pub proof fn lemma_ratios_sum_to_one(ings: Seq<Ingredient>)
    requires
        all_wf(ings),
        exists|i: int| 0 <= i < ings.len() && #[trigger] ings[i].amount.numer > 0,
    ensures
        common_whole(stack_fractions(ings)) > 0,
        parts_sum(stack_fractions(ings), ings.len()) == common_whole(stack_fractions(ings)),
{
    let fs = stack_fractions(ings);
    lemma_fractions_positive(ings);
    let i = choose|i: int| 0 <= i < ings.len() && #[trigger] ings[i].amount.numer > 0;
    assert(fs[i] == stack_fraction(ings[i]));
    lemma_positive_part(fs, i);
    lemma_part_le_total(fs, common_denominator(fs), i);
    lemma_parts_sum_total(fs, ings.len());
    assert(fs.take(ings.len() as int) =~= fs);
}

/// A single ingredient with a positive amount has the whole share.
pub proof fn lemma_single_ingredient(ings: Seq<Ingredient>)
    requires
        all_wf(ings),
        ings.len() == 1,
        ings[0].amount.numer > 0,
    ensures
        stack_share_of(ings, 0).0 == stack_share_of(ings, 0).1,
        stack_share_of(ings, 0).1 > 0,
        item_share_of(ings, 0).0 == item_share_of(ings, 0).1,
        item_share_of(ings, 0).1 > 0,
{
    lemma_ratios_sum_to_one(ings);
    let fs = stack_fractions(ings);
    let gs = item_fractions(ings);
    lemma_fractions_positive(ings);
    assert(gs[0] == item_fraction(ings[0]));
    lemma_positive_part(gs, 0);
    assert(total_over(fs.drop_last(), common_denominator(fs)) == 0);
    assert(total_over(gs.drop_last(), common_denominator(gs)) == 0);
    assert(common_whole(fs) == common_part(fs, 0));
    assert(common_whole(gs) == common_part(gs, 0));
}

/// The total of fractions whose numerators are all zero is zero.
pub proof fn lemma_zero_total(fs: Seq<(nat, nat)>, m: nat)
    requires
        forall|i: int| 0 <= i < fs.len() ==> #[trigger] fs[i].0 == 0,
    ensures
        total_over(fs, m) == 0,
    decreases fs.len(),
{
    if fs.len() > 0 {
        let init = fs.drop_last();
        assert forall|i: int| 0 <= i < init.len() implies #[trigger] init[i].0 == 0 by {
            assert(init[i] == fs[i]);
        }
        lemma_zero_total(init, m);
    }
}

/// Where every amount is zero, every share is zero and so is the whole:
/// nothing is divided by zero.
pub proof fn lemma_all_zero_amounts(ings: Seq<Ingredient>)
    requires
        forall|i: int| 0 <= i < ings.len() ==> #[trigger] ings[i].amount.numer == 0,
    ensures
        forall|i: int|
            0 <= i < ings.len() ==> #[trigger] stack_share_of(ings, i) == (0nat, 0nat),
        forall|i: int| 0 <= i < ings.len() ==> #[trigger] item_share_of(ings, i) == (0nat, 0nat),
{
    let fs = stack_fractions(ings);
    let gs = item_fractions(ings);
    assert forall|i: int| 0 <= i < fs.len() implies #[trigger] fs[i].0 == 0 by {
        assert(fs[i] == stack_fraction(ings[i]));
    }
    assert forall|i: int| 0 <= i < gs.len() implies #[trigger] gs[i].0 == 0 by {
        assert(gs[i] == item_fraction(ings[i]));
    }
    lemma_zero_total(fs, common_denominator(fs));
    lemma_zero_total(gs, common_denominator(gs));
    assert forall|i: int| 0 <= i < ings.len() implies #[trigger] stack_share_of(ings, i) == (
    0nat,
    0nat,
    ) by {
        assert(fs[i].0 == 0);
    }
    assert forall|i: int| 0 <= i < ings.len() implies #[trigger] item_share_of(ings, i) == (
    0nat,
    0nat,
    ) by {
        assert(gs[i].0 == 0);
    }
}

/// Two sequences of fractions, the second the first scaled by `p / q`.
pub open spec fn scaled_by(f: Seq<(nat, nat)>, g: Seq<(nat, nat)>, p: nat, q: nat) -> bool {
    &&& f.len() == g.len()
    &&& forall|i: int| 0 <= i < f.len() ==> #[trigger] g[i].0 * f[i].1 * q == f[i].0 * g[i].1 * p
}

/// Over their own common denominators, the parts of scaled fractions keep
/// the proportion `p / q` to the parts of the originals.
proof fn lemma_scaled_part(f: (nat, nat), g: (nat, nat), m: nat, m2: nat, p: nat, q: nat)
    requires
        f.1 > 0,
        g.1 > 0,
        m % f.1 == 0,
        m2 % g.1 == 0,
        g.0 * f.1 * q == f.0 * g.1 * p,
    ensures
        part_over(g, m2) * q * m == part_over(f, m) * p * m2,
{
    let (n, d) = f;
    let (n2, d2) = g;
    lemma_fundamental_div_mod(m as int, d as int);
    lemma_fundamental_div_mod(m2 as int, d2 as int);
    let k = m / d;
    let k2 = m2 / d2;
    assert(n2 * k2 * q * m == n * k * p * m2) by (nonlinear_arith)
        requires
            m == d * k,
            m2 == d2 * k2,
            n2 * d * q == n * d2 * p,
    ;
}

/// The totals of scaled fractions keep the same proportion as their parts.
proof fn lemma_scaled_total(f: Seq<(nat, nat)>, g: Seq<(nat, nat)>, m: nat, m2: nat, p: nat, q: nat)
    requires
        f.len() == g.len(),
        forall|i: int|
            0 <= i < f.len() ==> #[trigger] part_over(g[i], m2) * q * m == part_over(f[i], m)
                * p * m2,
    ensures
        total_over(g, m2) * q * m == total_over(f, m) * p * m2,
    decreases f.len(),
{
    if f.len() > 0 {
        let fi = f.drop_last();
        let gi = g.drop_last();
        assert forall|i: int| 0 <= i < fi.len() implies #[trigger] part_over(gi[i], m2) * q * m
            == part_over(fi[i], m) * p * m2 by {
            assert(fi[i] == f[i]);
            assert(gi[i] == g[i]);
        }
        lemma_scaled_total(fi, gi, m, m2, p, q);
        let t = total_over(fi, m);
        let t2 = total_over(gi, m2);
        let w = part_over(f.last(), m);
        let w2 = part_over(g.last(), m2);
        assert(w2 * q * m == w * p * m2);
        assert((t2 + w2) * q * m == (t + w) * p * m2) by (nonlinear_arith)
            requires
                t2 * q * m == t * p * m2,
                w2 * q * m == w * p * m2,
        ;
    } else {
        assert(0 * q * m == 0 * p * m2) by (nonlinear_arith);
    }
}

/// Scaling every fraction by the same positive `p / q` leaves every share
/// unchanged: `part / whole` before equals `part / whole` after.
pub proof fn lemma_scaling_keeps_shares(f: Seq<(nat, nat)>, g: Seq<(nat, nat)>, p: nat, q: nat)
    requires
        denominators_positive(f),
        denominators_positive(g),
        p > 0,
        q > 0,
        scaled_by(f, g, p, q),
    ensures
        forall|i: int|
            0 <= i < f.len() ==> #[trigger] common_part(f, i) * common_whole(g) == common_part(g, i)
                * common_whole(f),
{
    lemma_common_denominator(f);
    lemma_common_denominator(g);
    let m = common_denominator(f);
    let m2 = common_denominator(g);
    assert forall|i: int| 0 <= i < f.len() implies #[trigger] part_over(g[i], m2) * q * m
        == part_over(f[i], m) * p * m2 by {
        lemma_scaled_part(f[i], g[i], m, m2, p, q);
    }
    lemma_scaled_total(f, g, m, m2, p, q);
    let t = common_whole(f);
    let t2 = common_whole(g);
    assert forall|i: int| 0 <= i < f.len() implies #[trigger] common_part(f, i) * common_whole(g)
        == common_part(g, i) * common_whole(f) by {
        let w = common_part(f, i);
        let w2 = common_part(g, i);
        assert(w2 * q * m == w * p * m2);
        assert((q * m) * (w * t2) == (q * m) * (w2 * t)) by (nonlinear_arith)
            requires
                w2 * q * m == w * p * m2,
                t2 * q * m == t * p * m2,
        ;
        assert(q * m != 0) by (nonlinear_arith)
            requires
                q > 0,
                m > 0,
        ;
        lemma_mul_equality_converse((q * m) as int, (w * t2) as int, (w2 * t) as int);
    }
}

/// Scaling every ingredient's amount by the same positive `p / q`, with the
/// stack sizes kept, leaves every ratio unchanged, by stack and by item.
pub proof fn lemma_scaling_keeps_ratios(a: Seq<Ingredient>, b: Seq<Ingredient>, p: nat, q: nat)
    requires
        all_wf(a),
        all_wf(b),
        a.len() == b.len(),
        p > 0,
        q > 0,
        forall|i: int|
            0 <= i < a.len() ==> (#[trigger] b[i]).stack_size == a[i].stack_size && b[i].amount.numer
                * a[i].amount.denom * q == a[i].amount.numer * b[i].amount.denom * p,
    ensures
        forall|i: int|
            0 <= i < a.len() ==> #[trigger] stack_share_of(a, i).0 * stack_share_of(b, i).1
                == stack_share_of(b, i).0 * stack_share_of(a, i).1,
        forall|i: int|
            0 <= i < a.len() ==> #[trigger] item_share_of(a, i).0 * item_share_of(b, i).1
                == item_share_of(b, i).0 * item_share_of(a, i).1,
{
    lemma_fractions_positive(a);
    lemma_fractions_positive(b);
    let fa = stack_fractions(a);
    let fb = stack_fractions(b);
    let ga = item_fractions(a);
    let gb = item_fractions(b);
    assert forall|i: int| 0 <= i < fa.len() implies #[trigger] fb[i].0 * fa[i].1 * q == fa[i].0
        * fb[i].1 * p by {
        assert(b[i].stack_size == a[i].stack_size);
        let na = a[i].amount.numer as nat;
        let nb = b[i].amount.numer as nat;
        let da = a[i].amount.denom as nat;
        let db = b[i].amount.denom as nat;
        let s = a[i].stack_size as nat;
        assert(fa[i] == stack_fraction(a[i]));
        assert(fb[i] == stack_fraction(b[i]));
        assert(nb * (da * s) * q == na * (db * s) * p) by (nonlinear_arith)
            requires
                nb * da * q == na * db * p,
        ;
    }
    assert forall|i: int| 0 <= i < ga.len() implies #[trigger] gb[i].0 * ga[i].1 * q == ga[i].0
        * gb[i].1 * p by {
        assert(ga[i] == item_fraction(a[i]));
        assert(gb[i] == item_fraction(b[i]));
        assert(b[i].stack_size == a[i].stack_size);
    }
    lemma_scaling_keeps_shares(fa, fb, p, q);
    lemma_scaling_keeps_shares(ga, gb, p, q);
}

} // verus!
