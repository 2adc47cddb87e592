//! Quick-add presets: reusable expense recipes.
//!
//! A preset stores the amount, category and description an expense should
//! be created with; the optional default day of month is advisory only and
//! is clamped into the calendar range when set.

use vstd::prelude::*;
use crate::expense::ExpenseV;
use crate::ids::fresh_id;

verus! {

/// A reusable expense recipe, instantiated on demand with today's date.
pub struct ExpensePreset {
    pub id: u128,
    pub name: String,
    pub amount: u64,
    pub category: String,
    pub description: String,
    pub default_day: Option<u32>,
}

/// The mathematical value of a preset.
#[verifier::ext_equal]
pub ghost struct ExpensePresetV {
    pub id: u128,
    pub name: Seq<char>,
    pub amount: u64,
    pub category: Seq<char>,
    pub description: Seq<char>,
    pub default_day: Option<u32>,
}

impl View for ExpensePreset {
    type V = ExpensePresetV;

    open spec fn view(&self) -> ExpensePresetV {
        ExpensePresetV {
            id: self.id,
            name: self.name@,
            amount: self.amount,
            category: self.category@,
            description: self.description@,
            default_day: self.default_day,
        }
    }
}

impl DeepView for ExpensePreset {
    type V = ExpensePresetV;

    open spec fn deep_view(&self) -> ExpensePresetV {
        self.view()
    }
}

/// Relates an expense list to the result of instantiating the preset
/// holding the given id: one fresh expense with the first matching
/// preset's amount, category and description, active and dated with a
/// valid calendar date, lands at the end; a preset list without a match
/// leaves the expenses unchanged.
pub open spec fn instantiate_preset_result(
    presets: Seq<ExpensePresetV>,
    before: Seq<ExpenseV>,
    after: Seq<ExpenseV>,
    id: u128,
) -> bool {
    if forall|j: int| 0 <= j < presets.len() ==> presets[j].id != id {
        after == before
    } else {
        exists|i: int|
            {
                &&& 0 <= i < presets.len()
                &&& #[trigger] presets[i].id == id
                &&& (forall|j: int| 0 <= j < i ==> presets[j].id != id)
                &&& after.len() == before.len() + 1
                &&& after.take(before.len() as int) == before
                &&& after.last().amount == presets[i].amount
                &&& after.last().category == presets[i].category
                &&& after.last().description == presets[i].description
                &&& after.last().active
                &&& after.last().date.wf()
            }
    }
}

/// Relates a preset list to the result of saving the expense holding the
/// given id as a preset: one new preset with the expense's amount,
/// category and description under the given display name, without a
/// default day, lands at the end; an expense list without a match leaves
/// the presets unchanged.
pub open spec fn preset_from_expense_result(
    expenses: Seq<ExpenseV>,
    before: Seq<ExpensePresetV>,
    after: Seq<ExpensePresetV>,
    id: u128,
    name: Seq<char>,
) -> bool {
    if forall|j: int| 0 <= j < expenses.len() ==> expenses[j].id != id {
        after == before
    } else {
        exists|i: int|
            {
                &&& 0 <= i < expenses.len()
                &&& #[trigger] expenses[i].id == id
                &&& (forall|j: int| 0 <= j < i ==> expenses[j].id != id)
                &&& after.len() == before.len() + 1
                &&& after.take(before.len() as int) == before
                &&& after.last().name == name
                &&& after.last().amount == expenses[i].amount
                &&& after.last().category == expenses[i].category
                &&& after.last().description == expenses[i].description
                &&& after.last().default_day is None
            }
    }
}

impl ExpensePreset {
    /// A new preset starts without a default day, under a fresh identifier.
    pub fn new(name: String, amount: u64, category: String, description: String) -> (r:
        ExpensePreset)
        ensures
            r@ == (ExpensePresetV {
                id: r.id,
                name: name@,
                amount,
                category: category@,
                description: description@,
                default_day: None,
            }),
    {
        ExpensePreset { id: fresh_id(), name, amount, category, description, default_day: None }
    }

    /// Sets the advisory day of month, clamped into 1..=31.
    pub fn with_day(self, day: u32) -> (r: ExpensePreset)
        ensures
            r@ == (ExpensePresetV {
                default_day: Some(if day < 1 {
                    1u32
                } else if day > 31 {
                    31u32
                } else {
                    day
                }),
                ..self@
            }),
    {
        let clamped: u32 = if day < 1 {
            1
        } else if day > 31 {
            31
        } else {
            day
        };
        ExpensePreset { default_day: Some(clamped), ..self }
    }

    /// An exact copy, identifier included.
    pub fn snapshot(&self) -> (r: ExpensePreset)
        ensures
            r@ == self@,
    {
        ExpensePreset {
            id: self.id,
            name: self.name.clone(),
            amount: self.amount,
            category: self.category.clone(),
            description: self.description.clone(),
            default_day: self.default_day,
        }
    }
}

} // verus!
