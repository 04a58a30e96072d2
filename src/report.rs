//! The report: for each capacity tier, how many stacks, items or inserters
//! an ingredient's share comes to, rounded to the nearest whole number.

use vstd::arithmetic::div_mod::{lemma_fundamental_div_mod, lemma_fundamental_div_mod_converse};
use vstd::prelude::*;

use crate::ratio::IngredientRatio;
use crate::share::Share;

verus! {

/// A container whose slots are shared out between the ingredients.
#[derive(Clone, Copy, Debug, PartialEq, Eq, Structural)]
pub enum Container {
    /// A cargo wagon of a train: 40 slots.
    Car,
    /// A steel chest: 48 slots.
    SteelChest,
}

/// What a report row counts.
#[derive(Clone, Copy, Debug, PartialEq, Eq, Structural)]
pub enum Measure {
    /// Stacks, out of all slots of the tier.
    Stacks,
    /// Items in those stacks.
    Items,
    /// Items when every container of the tier repeats the filter of one:
    /// the stacks of one container, times the number of containers.
    ItemsSameFilter,
    /// Inserters, one per container, shared out by the item ratio.
    Inserters,
}

/// One row of the report: a measure over a number of containers.
#[derive(Clone, Copy, Debug, PartialEq, Eq, Structural)]
pub struct Tier {
    pub measure: Measure,
    pub container: Container,
    pub count: u32,
}

/// A tier together with what it comes to for one ingredient.
#[derive(Clone, Copy, Debug, PartialEq, Eq, Structural)]
pub struct ReportRow {
    pub tier: Tier,
    pub value: u128,
}

/// The slots of one container.
pub open spec fn spec_slots(c: Container) -> nat {
    match c {
        Container::Car => 40,
        Container::SteelChest => 48,
    }
}

/// The slots of one container.
pub fn container_slots(c: Container) -> (r: u32)
    ensures
        r == spec_slots(c),
{
    match c {
        Container::Car => 40,
        Container::SteelChest => 48,
    }
}

/// `share * capacity`, rounded to the nearest whole number, halves upward; a
/// share with a whole of zero comes to zero.
pub open spec fn rounded_scale(s: Share, capacity: nat) -> nat {
    if s.whole == 0 {
        0
    } else {
        ((2 * s.part * capacity + s.whole) / (2 * s.whole as int)) as nat
    }
}

/// Scales a share to a capacity, rounding to the nearest whole number with
/// halves going upward.
pub fn scale_share(s: Share, capacity: u64) -> (r: u64)
    requires
        s.wf(),
    ensures
        r == rounded_scale(s, capacity as nat),
        r <= capacity,
{
    if s.whole == 0 {
        return 0;
    }
    let p = s.part as u128;
    let w = s.whole as u128;
    let c = capacity as u128;
    assert(p * c <= 0xffff_ffff_ffff_ffffu128 * 0xffff_ffff_ffff_ffffu128) by (nonlinear_arith)
        requires
            p <= 0xffff_ffff_ffff_ffffu128,
            c <= 0xffff_ffff_ffff_ffffu128,
    ;
    let product = p * c;
    let q = product / w;
    let rem = product % w;
    let up = 2 * rem >= w;
    proof {
        lemma_fundamental_div_mod(product as int, w as int);
        assert(q <= c) by (nonlinear_arith)
            requires
                product == w * q + rem,
                rem >= 0,
                product == p * c,
                p <= w,
                w > 0,
        ;
        assert(q < c || rem == 0) by (nonlinear_arith)
            requires
                product == w * q + rem,
                0 <= rem < w,
                product == p * c,
                p <= w,
                q <= c,
        ;
        let num = 2 * p * c + w;
        if up {
            assert(num == (q + 1) * (2 * w) + (2 * rem - w)) by (nonlinear_arith)
                requires
                    num == 2 * p * c + w,
                    p * c == w * q + rem,
            ;
            lemma_fundamental_div_mod_converse(num as int, (2 * w) as int, (q + 1) as int, (2 * rem - w) as int);
        } else {
            assert(num == q * (2 * w) + (2 * rem + w)) by (nonlinear_arith)
                requires
                    num == 2 * p * c + w,
                    p * c == w * q + rem,
            ;
            lemma_fundamental_div_mod_converse(num as int, (2 * w) as int, q as int, (2 * rem + w) as int);
        }
    }
    if up {
        (q + 1) as u64
    } else {
        q as u64
    }
}

/// What a tier comes to for one ingredient.
pub open spec fn spec_tier_value(r: IngredientRatio, t: Tier) -> nat {
    let slots = spec_slots(t.container);
    let stack = r.ingredient.stack_size as nat;
    match t.measure {
        Measure::Stacks => rounded_scale(r.stack_ratio, slots * t.count as nat),
        Measure::Items => rounded_scale(r.stack_ratio, slots * t.count as nat) * stack,
        Measure::ItemsSameFilter => rounded_scale(r.stack_ratio, slots) * stack * t.count as nat,
        Measure::Inserters => rounded_scale(r.ratio, t.count as nat),
    }
}

/// What a tier comes to for one ingredient.
pub fn tier_value(r: &IngredientRatio, t: Tier) -> (v: u128)
    requires
        r.wf(),
    ensures
        v == spec_tier_value(*r, t),
{
    let slots = container_slots(t.container) as u64;
    let stack = r.ingredient.stack_size as u128;
    let count = t.count as u128;
    assert(slots * (t.count as u64) <= 48 * 0xffff_ffffu64) by (nonlinear_arith)
        requires
            slots <= 48,
            t.count <= 0xffff_ffffu32,
    ;
    let all = slots * (t.count as u64);
    match t.measure {
        Measure::Stacks => scale_share(r.stack_ratio, all) as u128,
        Measure::Items => {
            let stacks = scale_share(r.stack_ratio, all) as u128;
            assert(stacks * stack <= 48 * 0xffff_ffffu128 * 0xffff_ffffu128) by (nonlinear_arith)
                requires
                    stacks <= 48 * 0xffff_ffffu128,
                    stack <= 0xffff_ffffu128,
            ;
            stacks * stack
        },
        Measure::ItemsSameFilter => {
            let per = scale_share(r.stack_ratio, slots) as u128;
            assert(per * stack <= 48 * 0xffff_ffffu128) by (nonlinear_arith)
                requires
                    per <= 48,
                    stack <= 0xffff_ffffu128,
            ;
            assert(per * stack * count <= 48 * 0xffff_ffffu128 * 0xffff_ffffu128)
                by (nonlinear_arith)
                requires
                    per <= 48,
                    stack <= 0xffff_ffffu128,
                    count <= 0xffff_ffffu128,
            ;
            per * stack * count
        },
        Measure::Inserters => scale_share(r.ratio, t.count as u64) as u128,
    }
}

/// The tiers of the full report, in the order shown.
pub open spec fn full_tiers() -> Seq<Tier> {
    seq![
        Tier { measure: Measure::Stacks, container: Container::Car, count: 1 },
        Tier { measure: Measure::Stacks, container: Container::Car, count: 2 },
        Tier { measure: Measure::Stacks, container: Container::Car, count: 3 },
        Tier { measure: Measure::Stacks, container: Container::Car, count: 4 },
        Tier { measure: Measure::Stacks, container: Container::SteelChest, count: 1 },
        Tier { measure: Measure::Stacks, container: Container::SteelChest, count: 6 },
        Tier { measure: Measure::Stacks, container: Container::SteelChest, count: 13 },
        Tier { measure: Measure::Stacks, container: Container::SteelChest, count: 27 },
        Tier { measure: Measure::Items, container: Container::Car, count: 1 },
        Tier { measure: Measure::ItemsSameFilter, container: Container::Car, count: 2 },
        Tier { measure: Measure::Items, container: Container::Car, count: 2 },
        Tier { measure: Measure::ItemsSameFilter, container: Container::Car, count: 3 },
        Tier { measure: Measure::Items, container: Container::Car, count: 3 },
        Tier { measure: Measure::ItemsSameFilter, container: Container::Car, count: 4 },
        Tier { measure: Measure::Items, container: Container::Car, count: 4 },
        Tier { measure: Measure::Items, container: Container::SteelChest, count: 1 },
        Tier { measure: Measure::Items, container: Container::SteelChest, count: 6 },
        Tier { measure: Measure::Items, container: Container::SteelChest, count: 13 },
        Tier { measure: Measure::Items, container: Container::SteelChest, count: 27 },
        Tier { measure: Measure::Inserters, container: Container::SteelChest, count: 6 },
        Tier { measure: Measure::Inserters, container: Container::SteelChest, count: 13 },
        Tier { measure: Measure::Inserters, container: Container::SteelChest, count: 27 },
    ]
}

/// The tiers of the compact report, in the order shown.
pub open spec fn compact_tiers() -> Seq<Tier> {
    seq![
        Tier { measure: Measure::Stacks, container: Container::Car, count: 1 },
        Tier { measure: Measure::ItemsSameFilter, container: Container::Car, count: 4 },
        Tier { measure: Measure::Items, container: Container::SteelChest, count: 27 },
        Tier { measure: Measure::Inserters, container: Container::SteelChest, count: 27 },
    ]
}

/// The tiers of the full or of the compact report.
pub open spec fn tier_table(full: bool) -> Seq<Tier> {
    if full {
        full_tiers()
    } else {
        compact_tiers()
    }
}

/// The tiers of the full or of the compact report, in the order shown.
pub fn report_tiers(full: bool) -> (r: Vec<Tier>)
    ensures
        r@ == tier_table(full),
{
    if full {
        let r = vec![
            Tier { measure: Measure::Stacks, container: Container::Car, count: 1 },
            Tier { measure: Measure::Stacks, container: Container::Car, count: 2 },
            Tier { measure: Measure::Stacks, container: Container::Car, count: 3 },
            Tier { measure: Measure::Stacks, container: Container::Car, count: 4 },
            Tier { measure: Measure::Stacks, container: Container::SteelChest, count: 1 },
            Tier { measure: Measure::Stacks, container: Container::SteelChest, count: 6 },
            Tier { measure: Measure::Stacks, container: Container::SteelChest, count: 13 },
            Tier { measure: Measure::Stacks, container: Container::SteelChest, count: 27 },
            Tier { measure: Measure::Items, container: Container::Car, count: 1 },
            Tier { measure: Measure::ItemsSameFilter, container: Container::Car, count: 2 },
            Tier { measure: Measure::Items, container: Container::Car, count: 2 },
            Tier { measure: Measure::ItemsSameFilter, container: Container::Car, count: 3 },
            Tier { measure: Measure::Items, container: Container::Car, count: 3 },
            Tier { measure: Measure::ItemsSameFilter, container: Container::Car, count: 4 },
            Tier { measure: Measure::Items, container: Container::Car, count: 4 },
            Tier { measure: Measure::Items, container: Container::SteelChest, count: 1 },
            Tier { measure: Measure::Items, container: Container::SteelChest, count: 6 },
            Tier { measure: Measure::Items, container: Container::SteelChest, count: 13 },
            Tier { measure: Measure::Items, container: Container::SteelChest, count: 27 },
            Tier { measure: Measure::Inserters, container: Container::SteelChest, count: 6 },
            Tier { measure: Measure::Inserters, container: Container::SteelChest, count: 13 },
            Tier { measure: Measure::Inserters, container: Container::SteelChest, count: 27 },
        ];
        assert(r@ =~= full_tiers());
        r
    } else {
        let r = vec![
            Tier { measure: Measure::Stacks, container: Container::Car, count: 1 },
            Tier { measure: Measure::ItemsSameFilter, container: Container::Car, count: 4 },
            Tier { measure: Measure::Items, container: Container::SteelChest, count: 27 },
            Tier { measure: Measure::Inserters, container: Container::SteelChest, count: 27 },
        ];
        assert(r@ =~= compact_tiers());
        r
    }
}

/// The rows of one ingredient's report: each tier of the full or of the
/// compact table, in order, with what it comes to.
pub fn report(r: &IngredientRatio, full: bool) -> (rows: Vec<ReportRow>)
    requires
        r.wf(),
    ensures
        rows.len() == tier_table(full).len(),
        forall|i: int|
            0 <= i < rows.len() ==> {
                &&& (#[trigger] rows[i]).tier == tier_table(full)[i]
                &&& rows[i].value == spec_tier_value(*r, tier_table(full)[i])
            },
{
    let tiers = report_tiers(full);
    let mut rows: Vec<ReportRow> = Vec::new();
    let mut i: usize = 0;
    while i < tiers.len()
        invariant
            r.wf(),
            tiers@ == tier_table(full),
            i <= tiers.len(),
            rows.len() == i,
            forall|j: int|
                0 <= j < i ==> {
                    &&& (#[trigger] rows[j]).tier == tiers[j]
                    &&& rows[j].value == spec_tier_value(*r, tiers[j])
                },
        decreases tiers.len() - i,
    {
        let t = tiers[i];
        rows.push(ReportRow { tier: t, value: tier_value(r, t) });
        i = i + 1;
    }
    rows
}

} // verus!
