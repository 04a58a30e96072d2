//! Collecting the ingredients from the user, one answer at a time.
//!
//! The collector decides what each answer means and what to ask next; the
//! caller asks, reads the answer and hands it over.

use vstd::prelude::*;

use crate::data::{fetch_item_stack_size, stack_size_of};
use crate::parse::{
    all_digits, amount_of_text, amount_text_fits, digits_value, parse_amount, parse_stack_size,
};
use crate::ratio::{all_wf, Amount, Ingredient};

verus! {

/// The lowercase form of a string.
pub uninterp spec fn lower_of(s: Seq<char>) -> Seq<char>;

/// Relies on `str::to_lowercase`, whose result depends on the characters of
/// the string alone.
#[verifier::external_body]
fn lowercase(s: &str) -> (r: String)
    ensures
        r@ == lower_of(s@),
{
    s.to_lowercase()
}

/// What the collector waits for.
#[derive(Clone, Debug, PartialEq, Eq)]
pub enum Stage {
    /// The name of the next item.
    Name,
    /// The amount of the named item.
    Amount { name: String },
    /// The stack size of an item that the table does not hold.
    StackSize { name: String, amount: Amount },
    /// Nothing: the list is complete.
    Done,
}

/// An answer of the user.
#[derive(Clone, Debug)]
pub enum Input {
    /// A line of text.
    Line(String),
    /// The user asked to stop entering items.
    Interrupted,
}

/// What the caller does next.
#[derive(Clone, Copy, Debug, PartialEq, Eq, Structural)]
pub enum Reply {
    /// Ask for what the stage now waits for.
    Next,
    /// The answer was not understood: say so and ask again.
    Invalid,
    /// The list is complete.
    Finished,
}

/// The ingredients entered so far and what comes next.
#[derive(Debug)]
pub struct Collector {
    pub ingredients: Vec<Ingredient>,
    pub stage: Stage,
}

impl Collector {
    /// Every ingredient entered is well formed, and so is an amount waiting
    /// for its stack size.
    pub open spec fn wf(&self) -> bool {
        &&& all_wf(self.ingredients@)
        &&& (self.stage matches Stage::StackSize { amount, .. } ==> amount.wf())
    }

    /// Two states hold the same ingredients and wait for the same thing.
    pub open spec fn same_as(&self, other: Collector) -> bool {
        self.ingredients@ == other.ingredients@ && self.stage == other.stage
    }

    /// The state after one answer, and the reply to it.
    pub open spec fn steps_to(&self, input: Input, next: Collector, reply: Reply) -> bool {
        match (self.stage, input) {
            (Stage::Done, _) => next.same_as(*self) && reply == Reply::Finished,
            (_, Input::Interrupted) => {
                &&& next.ingredients@ == self.ingredients@
                &&& next.stage == Stage::Done
                &&& reply == Reply::Finished
            },
            (Stage::Name, Input::Line(t)) => {
                &&& next.ingredients@ == self.ingredients@
                &&& next.stage matches Stage::Amount { name } && name@ == lower_of(t@)
                &&& reply == Reply::Next
            },
            (Stage::Amount { name }, Input::Line(t)) => {
                if !amount_text_fits(t@) {
                    next.same_as(*self) && reply == Reply::Invalid
                } else {
                    &&& reply == Reply::Next
                    &&& match stack_size_of(name@) {
                        Some(size) => {
                            &&& next.stage == Stage::Name
                            &&& next.ingredients@.len() == self.ingredients@.len() + 1
                            &&& next.ingredients@.drop_last() == self.ingredients@
                            &&& next.ingredients@.last().name == name
                            &&& amount_of_text(t@, next.ingredients@.last().amount)
                            &&& next.ingredients@.last().stack_size == size
                        },
                        None => {
                            &&& next.ingredients@ == self.ingredients@
                            &&& next.stage matches Stage::StackSize { name: n, amount }
                                && n == name && amount_of_text(t@, amount)
                        },
                    }
                }
            },
            (Stage::StackSize { name, amount }, Input::Line(t)) => {
                if !(all_digits(t@) && 0 < digits_value(t@) <= u32::MAX) {
                    next.same_as(*self) && reply == Reply::Invalid
                } else {
                    &&& reply == Reply::Next
                    &&& next.stage == Stage::Name
                    &&& next.ingredients@ == self.ingredients@.push(
                        Ingredient { name, amount, stack_size: digits_value(t@) as u32 },
                    )
                }
            },
        }
    }

    /// A collector with no ingredients, waiting for a name.
    pub fn new() -> (r: Collector)
        ensures
            r.ingredients@.len() == 0,
            r.stage == Stage::Name,
            r.wf(),
    {
        Collector { ingredients: Vec::new(), stage: Stage::Name }
    }

    /// Takes one answer and gives the next state with the reply.
    ///
    /// A name is lowercased. An amount is read as a decimal number; the stack
    /// size is then looked up in the table or, for a name that it does not
    /// hold, asked for. A stack size must be a positive whole number. An
    /// answer that cannot be read leaves everything as it was. Stopping ends
    /// the list and drops an item not yet complete.
    pub fn step(self, input: Input) -> (r: (Collector, Reply))
        requires
            self.wf(),
        ensures
            r.0.wf(),
            self.steps_to(input, r.0, r.1),
    {
        let Collector { mut ingredients, stage } = self;
        let t = match input {
            Input::Interrupted => {
                return (Collector { ingredients, stage: Stage::Done }, Reply::Finished);
            },
            Input::Line(t) => t,
        };
        match stage {
            Stage::Done => (Collector { ingredients, stage: Stage::Done }, Reply::Finished),
            Stage::Name => {
                let name = lowercase(t.as_str());
                (Collector { ingredients, stage: Stage::Amount { name } }, Reply::Next)
            },
            Stage::Amount { name } => match parse_amount(t.as_str()) {
                None => (Collector { ingredients, stage: Stage::Amount { name } }, Reply::Invalid),
                Some(amount) => match fetch_item_stack_size(name.as_str()) {
                    Some(stack_size) => {
                        ingredients.push(Ingredient { name, amount, stack_size });
                        assert(ingredients@.drop_last() =~= self.ingredients@);
                        (Collector { ingredients, stage: Stage::Name }, Reply::Next)
                    },
                    None => (
                        Collector { ingredients, stage: Stage::StackSize { name, amount } },
                        Reply::Next,
                    ),
                },
            },
            Stage::StackSize { name, amount } => match parse_stack_size(t.as_str()) {
                None => (
                    Collector { ingredients, stage: Stage::StackSize { name, amount } },
                    Reply::Invalid,
                ),
                Some(stack_size) => {
                    ingredients.push(Ingredient { name, amount, stack_size });
                    (Collector { ingredients, stage: Stage::Name }, Reply::Next)
                },
            },
        }
    }
}

} // verus!
