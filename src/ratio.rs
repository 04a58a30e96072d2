//! The ratio engine: each ingredient's share of the storage that all of them
//! need together, measured in stacks.

use vstd::prelude::*;

use crate::share::{
    common_part, common_shares, common_whole, denominators_positive, fits_u64, fraction_view,
    Share,
};

verus! {

/// A non-negative quantity, held exactly as the fraction `numer / denom`.
#[derive(Clone, Copy, Debug, PartialEq, Eq, Structural)]
pub struct Amount {
    pub numer: u64,
    pub denom: u64,
}

impl Amount {
    /// The denominator is positive.
    pub open spec fn wf(self) -> bool {
        self.denom > 0
    }
}

/// One item to balance: its name, how much of it is needed per unit of
/// time (the same unit for all items of a run), and its stack size.
#[derive(Clone, Debug)]
pub struct Ingredient {
    pub name: String,
    pub amount: Amount,
    pub stack_size: u32,
}

impl Ingredient {
    /// The amount is a fraction and the stack size is positive.
    pub open spec fn wf(self) -> bool {
        self.amount.wf() && self.stack_size > 0
    }
}

/// An ingredient with its shares: `ratio` of all items needed, and
/// `stack_ratio` of all stacks needed.
#[derive(Clone, Debug)]
pub struct IngredientRatio {
    pub ingredient: Ingredient,
    pub ratio: Share,
    pub stack_ratio: Share,
}

impl IngredientRatio {
    /// Both shares are at most one.
    pub open spec fn wf(self) -> bool {
        self.ratio.wf() && self.stack_ratio.wf()
    }
}

/// Why ratios could not be computed.
#[derive(Clone, Copy, Debug, PartialEq, Eq, Structural)]
pub enum RatioError {
    /// The exact common denominator of the amounts, or the sum over it,
    /// does not fit in 64 bits.
    TooLarge,
}

/// Every ingredient of the sequence is well formed.
pub open spec fn all_wf(ings: Seq<Ingredient>) -> bool {
    forall|i: int| 0 <= i < ings.len() ==> #[trigger] ings[i].wf()
}

/// The stacks an ingredient needs, as a fraction: its amount divided by its
/// stack size.
pub open spec fn stack_fraction(ing: Ingredient) -> (nat, nat) {
    (ing.amount.numer as nat, ing.amount.denom as nat * ing.stack_size as nat)
}

/// The items an ingredient needs, as a fraction.
pub open spec fn item_fraction(ing: Ingredient) -> (nat, nat) {
    (ing.amount.numer as nat, ing.amount.denom as nat)
}

/// The stack fractions of all ingredients, in order.
pub open spec fn stack_fractions(ings: Seq<Ingredient>) -> Seq<(nat, nat)> {
    ings.map_values(|ing: Ingredient| stack_fraction(ing))
}

/// The item fractions of all ingredients, in order.
pub open spec fn item_fractions(ings: Seq<Ingredient>) -> Seq<(nat, nat)> {
    ings.map_values(|ing: Ingredient| item_fraction(ing))
}

/// The share of all stacks that the `i`-th ingredient needs.
pub open spec fn stack_share_of(ings: Seq<Ingredient>, i: int) -> (nat, nat) {
    (common_part(stack_fractions(ings), i), common_whole(stack_fractions(ings)))
}

/// The share of all items that the `i`-th ingredient needs.
pub open spec fn item_share_of(ings: Seq<Ingredient>, i: int) -> (nat, nat) {
    (common_part(item_fractions(ings), i), common_whole(item_fractions(ings)))
}

/// Whether the exact shares of the ingredients can be held in 64 bits.
pub open spec fn ratios_fit(ings: Seq<Ingredient>) -> bool {
    fits_u64(stack_fractions(ings)) && fits_u64(item_fractions(ings))
}

/// Computes, in input order, each ingredient's share of all stacks and of
/// all items that the ingredients need.
///
/// Where every amount is zero, every share has a whole of zero and is read
/// as zero.
pub fn compute_ratios(ingredients: &Vec<Ingredient>) -> (r: Result<Vec<IngredientRatio>, RatioError>)
    requires
        all_wf(ingredients@),
    ensures
        r is Ok <==> ratios_fit(ingredients@),
        r matches Ok(v) ==> {
            &&& v.len() == ingredients.len()
            &&& forall|i: int|
                0 <= i < v.len() ==> {
                    &&& #[trigger] v[i].ingredient == ingredients[i]
                    &&& (v[i].stack_ratio.part as nat, v[i].stack_ratio.whole as nat)
                        == stack_share_of(ingredients@, i)
                    &&& (v[i].ratio.part as nat, v[i].ratio.whole as nat) == item_share_of(
                        ingredients@,
                        i,
                    )
                    &&& v[i].wf()
                }
        },
{
    let n = ingredients.len();
    let mut by_stack: Vec<(u64, u128)> = Vec::new();
    let mut by_item: Vec<(u64, u128)> = Vec::new();
    let mut i: usize = 0;
    while i < n
        invariant
            n == ingredients.len(),
            all_wf(ingredients@),
            i <= n,
            by_stack.len() == i,
            by_item.len() == i,
            forall|j: int|
                0 <= j < i ==> fraction_view(#[trigger] by_stack[j]) == stack_fraction(
                    ingredients[j],
                ),
            forall|j: int|
                0 <= j < i ==> fraction_view(#[trigger] by_item[j]) == item_fraction(
                    ingredients[j],
                ),
            forall|j: int| 0 <= j < i ==> #[trigger] by_stack[j].1 > 0,
            forall|j: int| 0 <= j < i ==> #[trigger] by_item[j].1 > 0,
        decreases n - i,
    {
        let ing = &ingredients[i];
        assert(ingredients[i as int].wf());
        let denom = ing.amount.denom as u128;
        assert(denom * (ing.stack_size as u128) <= 0xffff_ffff_ffff_ffffu128 * 0xffff_ffffu128)
            by (nonlinear_arith)
            requires
                denom <= 0xffff_ffff_ffff_ffffu128,
                ing.stack_size <= 0xffff_ffffu32,
        ;
        let stacked = denom * (ing.stack_size as u128);
        assert(stacked > 0) by (nonlinear_arith)
            requires
                denom > 0,
                ing.stack_size > 0,
                stacked == denom * (ing.stack_size as u128),
        ;
        by_stack.push((ing.amount.numer, stacked));
        by_item.push((ing.amount.numer, denom));
        i = i + 1;
    }
    let ghost sf = stack_fractions(ingredients@);
    let ghost itf = item_fractions(ingredients@);
    assert(by_stack@.map_values(|f: (u64, u128)| fraction_view(f)) =~= sf);
    assert(by_item@.map_values(|f: (u64, u128)| fraction_view(f)) =~= itf);
    assert(denominators_positive(sf));
    assert(denominators_positive(itf));
    let stack_shares = match common_shares(&by_stack) {
        Some(v) => v,
        None => {
            return Err(RatioError::TooLarge);
        },
    };
    let item_shares = match common_shares(&by_item) {
        Some(v) => v,
        None => {
            return Err(RatioError::TooLarge);
        },
    };
    let mut out: Vec<IngredientRatio> = Vec::new();
    let mut i: usize = 0;
    while i < n
        invariant
            n == ingredients.len(),
            n == stack_shares.len(),
            n == item_shares.len(),
            i <= n,
            out.len() == i,
            forall|j: int|
                0 <= j < n ==> {
                    &&& #[trigger] stack_shares[j].part == common_part(sf, j)
                    &&& stack_shares[j].whole == common_whole(sf)
                    &&& stack_shares[j].wf()
                },
            forall|j: int|
                0 <= j < n ==> {
                    &&& #[trigger] item_shares[j].part == common_part(itf, j)
                    &&& item_shares[j].whole == common_whole(itf)
                    &&& item_shares[j].wf()
                },
            forall|j: int|
                #![trigger out[j]]
                0 <= j < i ==> {
                    &&& out[j].ingredient == ingredients[j]
                    &&& out[j].stack_ratio == stack_shares[j]
                    &&& out[j].ratio == item_shares[j]
                },
        decreases n - i,
    {
        let ing = &ingredients[i];
        let copy = Ingredient {
            name: ing.name.clone(),
            amount: ing.amount,
            stack_size: ing.stack_size,
        };
        let entry = IngredientRatio {
            ingredient: copy,
            ratio: item_shares[i],
            stack_ratio: stack_shares[i],
        };
        out.push(entry);
        i = i + 1;
    }
    assert forall|j: int| 0 <= j < n implies {
        &&& (out[j].stack_ratio.part as nat, out[j].stack_ratio.whole as nat) == stack_share_of(
            ingredients@,
            j,
        )
        &&& (out[j].ratio.part as nat, out[j].ratio.whole as nat) == item_share_of(ingredients@, j)
        &&& out[j].wf()
    } by {
        assert(out[j].stack_ratio == stack_shares[j]);
        assert(out[j].ratio == item_shares[j]);
    }
    Ok(out)
}

} // verus!
