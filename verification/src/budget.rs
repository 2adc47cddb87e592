//! The composed budget view: one profile's ledger together with the shared
//! categories, colors, templates and presets.
//!
//! This structure is derived and ephemeral: the session layer recomputes
//! it after every mutation, and nothing outside may cache it across one.
//! It also carries the full operation set of the single-file days, which
//! the legacy migration still reads.

use vstd::prelude::*;
use crate::date::today;
use crate::expense::{spec_total, total_of, Expense, ExpenseV};
use crate::preset::{
    instantiate_preset_result, preset_from_expense_result, ExpensePreset, ExpensePresetV,
};
use crate::profile::{remove_expense_from, toggle_expense_in, toggle_result, Balance};
use crate::shared::{
    add_category_entry, color_of, color_upsert_result, delete_template_from, find_preset,
    find_template, lookup_color, remove_category_entry, remove_preset_from, rename_result,
    rename_template_in, set_color_entry, spec_default_category_colors,
    spec_default_category_names, spec_default_gray, update_expenses_result,
    update_template_expenses_in, CategoryColor, ColorEntry, ColorEntryV,
};
use crate::template::{
    append_template_result, fresh_copies_of, instantiate_expenses, load_template_result,
    snapshot_expenses, Template, TemplateV,
};

verus! {

/// The unified view a presentation consumer reads: income and expenses of
/// the active profile beside the shared data.
pub struct Budget {
    pub income: u64,
    pub expenses: Vec<Expense>,
    pub categories: Vec<String>,
    pub category_colors: Vec<ColorEntry>,
    pub templates: Vec<Template>,
    pub presets: Vec<ExpensePreset>,
}

/// The mathematical value of the composed view.
#[verifier::ext_equal]
pub ghost struct BudgetV {
    pub income: u64,
    pub expenses: Seq<ExpenseV>,
    pub categories: Seq<Seq<char>>,
    pub category_colors: Seq<ColorEntryV>,
    pub templates: Seq<TemplateV>,
    pub presets: Seq<ExpensePresetV>,
}

impl View for Budget {
    type V = BudgetV;

    open spec fn view(&self) -> BudgetV {
        BudgetV {
            income: self.income,
            expenses: self.expenses.deep_view(),
            categories: self.categories.deep_view(),
            category_colors: self.category_colors.deep_view(),
            templates: self.templates.deep_view(),
            presets: self.presets.deep_view(),
        }
    }
}

impl DeepView for Budget {
    type V = BudgetV;

    open spec fn deep_view(&self) -> BudgetV {
        self.view()
    }
}

/// The value a budget takes on a fresh install or after a failed read.
pub open spec fn spec_default_budget() -> BudgetV {
    BudgetV {
        income: 0,
        expenses: Seq::empty(),
        categories: spec_default_category_names(),
        category_colors: spec_default_category_colors(),
        templates: Seq::empty(),
        presets: Seq::empty(),
    }
}

impl Default for Budget {
    /// The built-in budget.
    fn default() -> (r: Budget)
        ensures
            r@ == spec_default_budget(),
    {
        Budget::new()
    }
}

impl Budget {
    /// The built-in budget: no income, no expenses, default categories.
    pub fn new() -> (r: Budget)
        ensures
            r@ == spec_default_budget(),
    {
        let r = Budget {
            income: 0,
            expenses: Vec::new(),
            categories: crate::shared::default_categories(),
            category_colors: crate::shared::default_category_colors(),
            templates: Vec::new(),
            presets: Vec::new(),
        };
        proof {
            assert(r@ =~= spec_default_budget());
        }
        r
    }

    /// The income of the budget period.
    pub fn total_income(&self) -> (r: u64)
        ensures
            r == self@.income,
    {
        self.income
    }

    /// Exact total in cents of the active expenses.
    pub fn total_expenses(&self) -> (t: u128)
        ensures
            t == spec_total(self@.expenses),
    {
        total_of(&self.expenses)
    }

    /// Exact remaining balance: income minus the total of active expenses.
    pub fn remaining_balance(&self) -> (r: Balance)
        ensures
            r.as_int() == self@.income - spec_total(self@.expenses),
            r matches Balance::Deficit(n) ==> n > 0,
    {
        let total = self.total_expenses();
        proof {
            crate::expense::lemma_total_bounds(self@.expenses);
        }
        if total <= self.income as u128 {
            Balance::Surplus(self.income as u128 - total)
        } else {
            Balance::Deficit(total - self.income as u128)
        }
    }

    /// Overwrites the income.
    pub fn set_income(&mut self, amount: u64)
        ensures
            final(self)@ == (BudgetV { income: amount, ..old(self)@ }),
    {
        self.income = amount;
    }

    /// Appends an expense.
    pub fn add_expense(&mut self, expense: Expense)
        ensures
            final(self)@ == (BudgetV {
                expenses: old(self)@.expenses.push(expense@),
                ..old(self)@
            }),
    {
        let ghost prev = self.expenses.deep_view();
        let ghost ev = expense@;
        self.expenses.push(expense);
        proof {
            assert(self.expenses.deep_view() =~= prev.push(ev));
        }
    }

    /// Removes the expense holding the given id; absence is a no-op.
    pub fn remove_expense(&mut self, id: u128)
        ensures
            final(self)@ == (BudgetV {
                expenses: old(self)@.expenses.filter(|e: ExpenseV| e.id != id),
                ..old(self)@
            }),
    {
        remove_expense_from(&mut self.expenses, id);
    }

    /// Flips the active flag of the expense holding the given id; absence
    /// is a no-op.
    pub fn toggle_expense_active(&mut self, id: u128)
        ensures
            toggle_result(old(self)@.expenses, final(self)@.expenses, id),
            final(self)@ == (BudgetV { expenses: final(self)@.expenses, ..old(self)@ }),
    {
        toggle_expense_in(&mut self.expenses, id);
    }

    /// Adds a category under the trimmed name together with its color; an
    /// empty or already present name leaves everything unchanged.
    pub fn add_category_with_color(&mut self, category: String, color: CategoryColor)
        ensures
            ({
                let t = crate::text::trim_spec(category@);
                if t.len() == 0 || old(self)@.categories.contains(t) {
                    final(self)@ == old(self)@
                } else {
                    &&& final(self)@.categories == old(self)@.categories.push(t)
                    &&& color_upsert_result(
                        old(self)@.category_colors,
                        final(self)@.category_colors,
                        t,
                        color,
                    )
                    &&& final(self)@ == (BudgetV {
                        categories: final(self)@.categories,
                        category_colors: final(self)@.category_colors,
                        ..old(self)@
                    })
                }
            }),
    {
        add_category_entry(&mut self.categories, &mut self.category_colors, category, color);
        proof {
            let t = crate::text::trim_spec(category@);
            if t.len() == 0 || old(self)@.categories.contains(t) {
                assert(final(self)@ =~= old(self)@);
            }
        }
    }

    /// Removes a category and its color entry; expenses referencing the
    /// name keep it.
    pub fn remove_category(&mut self, category: &str)
        ensures
            final(self)@.categories == old(self)@.categories.filter(
                |c: Seq<char>| c != category@,
            ),
            final(self)@.category_colors == old(self)@.category_colors.filter(
                |e: ColorEntryV| e.name != category@,
            ),
            final(self)@ == (BudgetV {
                categories: final(self)@.categories,
                category_colors: final(self)@.category_colors,
                ..old(self)@
            }),
    {
        remove_category_entry(&mut self.categories, &mut self.category_colors, category);
    }

    /// The category's color, or gray when no entry holds the name.
    pub fn get_category_color(&self, category: &str) -> (r: CategoryColor)
        ensures
            r == (match lookup_color(self@.category_colors, category@) {
                Some(c) => c,
                None => spec_default_gray(),
            }),
    {
        color_of(&self.category_colors, category)
    }

    /// Recolors an existing category; a name outside the category list
    /// leaves everything unchanged.
    pub fn set_category_color(&mut self, category: &str, color: CategoryColor)
        ensures
            final(self)@ == (BudgetV {
                category_colors: final(self)@.category_colors,
                ..old(self)@
            }),
            if old(self)@.categories.contains(category@) {
                color_upsert_result(
                    old(self)@.category_colors,
                    final(self)@.category_colors,
                    category@,
                    color,
                )
            } else {
                final(self)@.category_colors == old(self)@.category_colors
            },
    {
        set_color_entry(&self.categories, &mut self.category_colors, category, color);
    }

    /// Snapshots the current expenses, identifiers included, into a new
    /// template appended under the given name.
    pub fn save_template(&mut self, name: String)
        ensures
            final(self)@.templates.len() == old(self)@.templates.len() + 1,
            final(self)@.templates.take(old(self)@.templates.len() as int) == old(
                self,
            )@.templates,
            final(self)@.templates.last().name == name@,
            final(self)@.templates.last().expenses == old(self)@.expenses,
            final(self)@ == (BudgetV { templates: final(self)@.templates, ..old(self)@ }),
    {
        let ghost prev = self.templates.deep_view();
        let snapshot = snapshot_expenses(&self.expenses);
        let template = Template::new(name, snapshot);
        let ghost tv = template@;
        self.templates.push(template);
        proof {
            assert(self.templates.deep_view() =~= prev.push(tv));
            assert(self.templates.deep_view().take(prev.len() as int) =~= prev);
        }
    }

    /// Replaces the expenses wholesale with fresh copies of the template
    /// holding the given id; absence is a no-op. The template itself is
    /// untouched.
    pub fn load_template(&mut self, id: u128)
        ensures
            load_template_result(
                old(self)@.templates,
                old(self)@.expenses,
                final(self)@.expenses,
                id,
            ),
            final(self)@ == (BudgetV { expenses: final(self)@.expenses, ..old(self)@ }),
    {
        match find_template(&self.templates, id) {
            Some(i) => {
                let fresh = instantiate_expenses(&self.templates[i].expenses);
                self.expenses = fresh;
            },
            None => {},
        }
    }

    /// Appends fresh copies of the template holding the given id to the
    /// existing expenses; absence is a no-op.
    pub fn append_template(&mut self, id: u128)
        ensures
            append_template_result(
                old(self)@.templates,
                old(self)@.expenses,
                final(self)@.expenses,
                id,
            ),
            final(self)@ == (BudgetV { expenses: final(self)@.expenses, ..old(self)@ }),
    {
        let ghost before = self.expenses.deep_view();
        match find_template(&self.templates, id) {
            Some(i) => {
                let ghost src = self.templates.deep_view()[i as int].expenses;
                let mut fresh = instantiate_expenses(&self.templates[i].expenses);
                let ghost fv = fresh.deep_view();
                self.expenses.append(&mut fresh);
                proof {
                    assert(self.expenses.deep_view() =~= before + fv);
                    assert((before + fv).take(before.len() as int) =~= before);
                    assert((before + fv).skip(before.len() as int) =~= fv);
                }
            },
            None => {},
        }
    }

    /// Removes every template holding the given id; absence is a no-op.
    pub fn delete_template(&mut self, id: u128)
        ensures
            final(self)@ == (BudgetV {
                templates: old(self)@.templates.filter(|t: TemplateV| t.id != id),
                ..old(self)@
            }),
    {
        delete_template_from(&mut self.templates, id);
    }

    /// Renames the first template holding the given id; absence is a
    /// no-op.
    pub fn rename_template(&mut self, id: u128, new_name: String)
        ensures
            rename_result(old(self)@.templates, final(self)@.templates, id, new_name@),
            final(self)@ == (BudgetV { templates: final(self)@.templates, ..old(self)@ }),
    {
        rename_template_in(&mut self.templates, id, new_name);
    }

    /// Replaces the expense snapshot of the first template holding the
    /// given id; absence is a no-op.
    pub fn update_template_expenses(&mut self, id: u128, expenses: Vec<Expense>)
        ensures
            update_expenses_result(
                old(self)@.templates,
                final(self)@.templates,
                id,
                expenses.deep_view(),
            ),
            final(self)@ == (BudgetV { templates: final(self)@.templates, ..old(self)@ }),
    {
        update_template_expenses_in(&mut self.templates, id, expenses);
    }

    /// Appends a preset.
    pub fn add_preset(&mut self, preset: ExpensePreset)
        ensures
            final(self)@ == (BudgetV {
                presets: old(self)@.presets.push(preset@),
                ..old(self)@
            }),
    {
        let ghost prev = self.presets.deep_view();
        let ghost pv = preset@;
        self.presets.push(preset);
        proof {
            assert(self.presets.deep_view() =~= prev.push(pv));
        }
    }

    /// Removes every preset holding the given id; absence is a no-op.
    pub fn remove_preset(&mut self, id: u128)
        ensures
            final(self)@ == (BudgetV {
                presets: old(self)@.presets.filter(|p: ExpensePresetV| p.id != id),
                ..old(self)@
            }),
    {
        remove_preset_from(&mut self.presets, id);
    }

    /// The first preset holding the given id, if any.
    pub fn get_preset(&self, id: u128) -> (r: Option<&ExpensePreset>)
        ensures
            r matches Some(p) ==> exists|i: int|
                {
                    &&& 0 <= i < self@.presets.len()
                    &&& #[trigger] self@.presets[i].id == id
                    &&& (forall|j: int| 0 <= j < i ==> self@.presets[j].id != id)
                    &&& p@ == self@.presets[i]
                },
            r is None ==> forall|j: int| 0 <= j < self@.presets.len() ==> self@.presets[j].id != id,
    {
        match find_preset(&self.presets, id) {
            Some(i) => Some(&self.presets[i]),
            None => None,
        }
    }

    /// Appends a fresh expense built from the preset holding the given id,
    /// dated today; absence is a no-op.
    pub fn create_expense_from_preset(&mut self, preset_id: u128)
        ensures
            instantiate_preset_result(
                old(self)@.presets,
                old(self)@.expenses,
                final(self)@.expenses,
                preset_id,
            ),
            final(self)@ == (BudgetV { expenses: final(self)@.expenses, ..old(self)@ }),
    {
        let ghost before = self.expenses.deep_view();
        match find_preset(&self.presets, preset_id) {
            Some(i) => {
                let p = &self.presets[i];
                let expense = Expense::new(
                    p.amount,
                    p.category.clone(),
                    p.description.clone(),
                    today(),
                );
                let ghost ev = expense@;
                self.expenses.push(expense);
                proof {
                    assert(self.expenses.deep_view() =~= before.push(ev));
                    assert(self.expenses.deep_view().take(before.len() as int) =~= before);
                }
            },
            None => {},
        }
    }

    /// Appends a preset built from the expense holding the given id, under
    /// the given display name; absence is a no-op.
    pub fn create_preset_from_expense(&mut self, expense_id: u128, name: String)
        ensures
            preset_from_expense_result(
                old(self)@.expenses,
                old(self)@.presets,
                final(self)@.presets,
                expense_id,
                name@,
            ),
            final(self)@ == (BudgetV { presets: final(self)@.presets, ..old(self)@ }),
    {
        let ghost before = self.presets.deep_view();
        match crate::profile::find_expense(&self.expenses, expense_id) {
            Some(i) => {
                let e = &self.expenses[i];
                let preset = ExpensePreset::new(
                    name,
                    e.amount,
                    e.category.clone(),
                    e.description.clone(),
                );
                let ghost pv = preset@;
                self.presets.push(preset);
                proof {
                    assert(self.presets.deep_view() =~= before.push(pv));
                    assert(self.presets.deep_view().take(before.len() as int) =~= before);
                }
            },
            None => {},
        }
    }
}

} // verus!
