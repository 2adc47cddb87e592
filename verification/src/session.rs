//! The session layer: the single owner of the live in-memory state.
//!
//! It holds the configuration, the active profile's ledger, the shared
//! data, and the composed budget view, and exposes one operation per user
//! intent. Every mutation follows the same pattern: change the in-memory
//! entities, then recompose the derived view, so the view always reflects
//! the in-memory state. What must then be written to disk is handed back
//! to the caller as a plain value; the shell performs the writes.

use vstd::prelude::*;
use crate::budget::{Budget, BudgetV};
use crate::config::{profile_ids, AppConfig, ProfileMeta, rename_profile_result};
use crate::expense::{Expense, ExpenseV};
use crate::forms::ProfileAction;
use crate::preset::{
    instantiate_preset_result, preset_from_expense_result, ExpensePreset, ExpensePresetV,
};
use crate::profile::{toggle_result, ProfileData, ProfileDataV};
use crate::shared::{
    color_upsert_result, copy_color_entries, copy_presets, copy_strings, copy_templates,
    delete_template_from, find_preset, find_template, remove_preset_from, rename_result,
    rename_template_in, update_expenses_result, update_template_expenses_in, CategoryColor,
    ColorEntryV, SharedData, SharedDataV,
};
use crate::template::{
    append_template_result, instantiate_expenses, load_template_result, snapshot_expenses,
    Template, TemplateV,
};
use crate::text::{str_eq, trim_spec};

verus! {

/// The budget view that one profile's ledger and the shared data compose.
pub open spec fn composed(profile: ProfileDataV, shared: SharedDataV) -> BudgetV {
    BudgetV {
        income: profile.income,
        expenses: profile.expenses,
        categories: shared.categories,
        category_colors: shared.category_colors,
        templates: shared.templates,
        presets: shared.presets,
    }
}

/// Composes the budget view out of a profile's ledger and the shared
/// data.
pub fn compose_budget(profile: &ProfileData, shared: &SharedData) -> (r: Budget)
    ensures
        r@ == composed(profile@, shared@),
{
    let r = Budget {
        income: profile.income,
        expenses: snapshot_expenses(&profile.expenses),
        categories: copy_strings(&shared.categories),
        category_colors: copy_color_entries(&shared.category_colors),
        templates: copy_templates(&shared.templates),
        presets: copy_presets(&shared.presets),
    };
    proof {
        assert(r@ =~= composed(profile@, shared@));
    }
    r
}

/// What a profile switch asks the shell to do, in order: save the ledger
/// of the profile being left — with every unsaved in-memory change —
/// before loading the target's ledger.
pub struct SwitchPlan {
    pub save_id: String,
    pub save_data: ProfileData,
    pub load_id: String,
}

/// The file work one profile-management intent leaves behind.
pub enum ProfileActionEffect {
    /// The configuration changed and an empty ledger file must be written
    /// under the new id.
    CreatedProfile(String),
    /// The configuration changed and the source profile's file must be
    /// copied under the new id: source id, new id.
    DuplicatedProfile(String, String),
    /// The configuration changed.
    RenamedProfile,
    /// The configuration changed and the profile's file must be deleted.
    DeletedProfile(String),
    /// Nothing changed and no file may be touched.
    RejectedDelete,
    /// The caller must run a profile switch for this id.
    SwitchRequested(String),
}

/// Holds when `next` is the id after position `i` in the wrap-around
/// order, where `i` is the first position holding the resident id — or
/// zero when the registry does not hold it.
pub open spec fn cycle_witness(ids: Seq<Seq<char>>, current: Seq<char>, next: Seq<char>, i: int) -> bool {
    &&& 0 <= i < ids.len()
    &&& (ids[i] == current || (i == 0 && forall|j: int| 0 <= j < ids.len() ==> ids[j] != current))
    &&& (forall|j: int| 0 <= j < i ==> ids[j] != current)
    &&& next == ids[(i + 1) % ids.len() as int]
}

proof fn lemma_cycle_exists(ids: Seq<Seq<char>>, current: Seq<char>, next: Seq<char>, i: int)
    requires
        cycle_witness(ids, current, next, i),
    ensures
        exists|k: int| cycle_witness(ids, current, next, k),
{
}

/// The live state of one run of the application.
pub struct BudgetApp {
    pub config: AppConfig,
    pub current_profile_id: String,
    pub profile_data: ProfileData,
    pub shared_data: SharedData,
    pub budget: Budget,
}

impl BudgetApp {
    /// The session invariant: the composed view reflects the in-memory
    /// entities, and the resident profile is the configured active one.
    pub open spec fn wf(self) -> bool {
        &&& self.budget@ == composed(self.profile_data@, self.shared_data@)
        &&& self.current_profile_id@ == self.config@.active_profile_id
    }

    /// Starts a session over the loaded configuration, the active
    /// profile's ledger and the shared data.
    pub fn new(config: AppConfig, profile_data: ProfileData, shared_data: SharedData) -> (r:
        BudgetApp)
        ensures
            r.wf(),
            r.config@ == config@,
            r.profile_data@ == profile_data@,
            r.shared_data@ == shared_data@,
    {
        let current_profile_id = config.active_profile_id.clone();
        let budget = compose_budget(&profile_data, &shared_data);
        BudgetApp { config, current_profile_id, profile_data, shared_data, budget }
    }

    fn recompose(&mut self)
        ensures
            final(self).config@ == old(self).config@,
            final(self).current_profile_id@ == old(self).current_profile_id@,
            final(self).profile_data@ == old(self).profile_data@,
            final(self).shared_data@ == old(self).shared_data@,
            final(self).budget@ == composed(old(self).profile_data@, old(self).shared_data@),
    {
        let b = compose_budget(&self.profile_data, &self.shared_data);
        self.budget = b;
    }

    /// Appends an expense to the active ledger; the profile file must be
    /// saved afterwards.
    pub fn add_expense(&mut self, expense: Expense)
        requires
            old(self).wf(),
        ensures
            final(self).wf(),
            final(self).profile_data@.income == old(self).profile_data@.income,
            final(self).profile_data@.expenses == old(self).profile_data@.expenses.push(expense@),
            final(self).shared_data@ == old(self).shared_data@,
            final(self).config@ == old(self).config@,
            final(self).current_profile_id@ == old(self).current_profile_id@,
    {
        self.profile_data.add_expense(expense);
        self.recompose();
    }

    /// Removes the expense holding the given id from the active ledger;
    /// absence is a no-op.
    pub fn remove_expense(&mut self, id: u128)
        requires
            old(self).wf(),
        ensures
            final(self).wf(),
            final(self).profile_data@.income == old(self).profile_data@.income,
            final(self).profile_data@.expenses == old(self).profile_data@.expenses.filter(
                |e: ExpenseV| e.id != id,
            ),
            final(self).shared_data@ == old(self).shared_data@,
            final(self).config@ == old(self).config@,
            final(self).current_profile_id@ == old(self).current_profile_id@,
    {
        self.profile_data.remove_expense(id);
        self.recompose();
    }

    /// Flips the active flag of the expense holding the given id; absence
    /// is a no-op.
    pub fn toggle_expense_active(&mut self, id: u128)
        requires
            old(self).wf(),
        ensures
            final(self).wf(),
            final(self).profile_data@.income == old(self).profile_data@.income,
            toggle_result(old(self).profile_data@.expenses, final(self).profile_data@.expenses, id),
            final(self).shared_data@ == old(self).shared_data@,
            final(self).config@ == old(self).config@,
            final(self).current_profile_id@ == old(self).current_profile_id@,
    {
        self.profile_data.toggle_expense_active(id);
        self.recompose();
    }

    /// Overwrites the active ledger's income.
    pub fn set_income(&mut self, amount: u64)
        requires
            old(self).wf(),
        ensures
            final(self).wf(),
            final(self).profile_data@ == (ProfileDataV {
                income: amount,
                ..old(self).profile_data@
            }),
            final(self).shared_data@ == old(self).shared_data@,
            final(self).config@ == old(self).config@,
            final(self).current_profile_id@ == old(self).current_profile_id@,
    {
        self.profile_data.set_income(amount);
        self.recompose();
    }

    /// Adds a category under the trimmed name together with its color; an
    /// empty or already present name changes nothing.
    pub fn add_category(&mut self, category: String, color: CategoryColor)
        requires
            old(self).wf(),
        ensures
            final(self).wf(),
            final(self).profile_data@ == old(self).profile_data@,
            final(self).config@ == old(self).config@,
            final(self).current_profile_id@ == old(self).current_profile_id@,
            final(self).shared_data@.templates == old(self).shared_data@.templates,
            final(self).shared_data@.presets == old(self).shared_data@.presets,
            ({
                let t = trim_spec(category@);
                if t.len() == 0 || old(self).shared_data@.categories.contains(t) {
                    final(self).shared_data@ == old(self).shared_data@
                } else {
                    &&& final(self).shared_data@.categories == old(self).shared_data@.categories.push(t)
                    &&& color_upsert_result(
                        old(self).shared_data@.category_colors,
                        final(self).shared_data@.category_colors,
                        t,
                        color,
                    )
                }
            }),
    {
        self.shared_data.add_category_with_color(category, color);
        self.recompose();
    }

    /// Removes a category and its color entry; expenses referencing the
    /// name keep it.
    pub fn remove_category(&mut self, category: &str)
        requires
            old(self).wf(),
        ensures
            final(self).wf(),
            final(self).profile_data@ == old(self).profile_data@,
            final(self).config@ == old(self).config@,
            final(self).current_profile_id@ == old(self).current_profile_id@,
            final(self).shared_data@.categories == old(self).shared_data@.categories.filter(
                |c: Seq<char>| c != category@,
            ),
            final(self).shared_data@.category_colors == old(self).shared_data@.category_colors.filter(|e: ColorEntryV| e.name != category@),
            final(self).shared_data@.templates == old(self).shared_data@.templates,
            final(self).shared_data@.presets == old(self).shared_data@.presets,
    {
        self.shared_data.remove_category(category);
        self.recompose();
    }

    /// Recolors an existing category; a name outside the category list
    /// changes nothing.
    pub fn set_category_color(&mut self, category: &str, color: CategoryColor)
        requires
            old(self).wf(),
        ensures
            final(self).wf(),
            final(self).profile_data@ == old(self).profile_data@,
            final(self).config@ == old(self).config@,
            final(self).current_profile_id@ == old(self).current_profile_id@,
            final(self).shared_data@.categories == old(self).shared_data@.categories,
            final(self).shared_data@.templates == old(self).shared_data@.templates,
            final(self).shared_data@.presets == old(self).shared_data@.presets,
            if old(self).shared_data@.categories.contains(category@) {
                color_upsert_result(
                    old(self).shared_data@.category_colors,
                    final(self).shared_data@.category_colors,
                    category@,
                    color,
                )
            } else {
                final(self).shared_data@.category_colors == old(self).shared_data@.category_colors
            },
    {
        self.shared_data.set_category_color(category, color);
        self.recompose();
    }

    /// Snapshots the active ledger's expenses, identifiers included, into
    /// a new shared template under the given name.
    pub fn save_template(&mut self, name: String)
        requires
            old(self).wf(),
        ensures
            final(self).wf(),
            final(self).profile_data@ == old(self).profile_data@,
            final(self).config@ == old(self).config@,
            final(self).current_profile_id@ == old(self).current_profile_id@,
            final(self).shared_data@.categories == old(self).shared_data@.categories,
            final(self).shared_data@.category_colors == old(self).shared_data@.category_colors,
            final(self).shared_data@.presets == old(self).shared_data@.presets,
            final(self).shared_data@.templates.len() == old(self).shared_data@.templates.len() + 1,
            final(self).shared_data@.templates.take(old(self).shared_data@.templates.len() as int)
                == old(self).shared_data@.templates,
            final(self).shared_data@.templates.last().name == name@,
            final(self).shared_data@.templates.last().expenses == old(self).profile_data@.expenses,
    {
        let snapshot = snapshot_expenses(&self.profile_data.expenses);
        let template = Template::new(name, snapshot);
        self.shared_data.add_template(template);
        proof {
            assert(self.shared_data@.templates.take(old(self).shared_data@.templates.len() as int)
                =~= old(self).shared_data@.templates);
        }
        self.recompose();
    }

    /// Replaces the active ledger's expenses wholesale with fresh copies
    /// of the shared template holding the given id; absence is a no-op.
    /// The template itself is never touched.
    pub fn load_template(&mut self, id: u128)
        requires
            old(self).wf(),
        ensures
            final(self).wf(),
            final(self).profile_data@.income == old(self).profile_data@.income,
            load_template_result(
                old(self).shared_data@.templates,
                old(self).profile_data@.expenses,
                final(self).profile_data@.expenses,
                id,
            ),
            final(self).shared_data@ == old(self).shared_data@,
            final(self).config@ == old(self).config@,
            final(self).current_profile_id@ == old(self).current_profile_id@,
    {
        match find_template(&self.shared_data.templates, id) {
            Some(i) => {
                let fresh = instantiate_expenses(&self.shared_data.templates[i].expenses);
                self.profile_data.expenses = fresh;
            },
            None => {},
        }
        self.recompose();
    }

    /// Appends fresh copies of the shared template holding the given id
    /// to the active ledger's expenses; absence is a no-op.
    pub fn append_template(&mut self, id: u128)
        requires
            old(self).wf(),
        ensures
            final(self).wf(),
            final(self).profile_data@.income == old(self).profile_data@.income,
            append_template_result(
                old(self).shared_data@.templates,
                old(self).profile_data@.expenses,
                final(self).profile_data@.expenses,
                id,
            ),
            final(self).shared_data@ == old(self).shared_data@,
            final(self).config@ == old(self).config@,
            final(self).current_profile_id@ == old(self).current_profile_id@,
    {
        let ghost before = self.profile_data.expenses.deep_view();
        match find_template(&self.shared_data.templates, id) {
            Some(i) => {
                let mut fresh = instantiate_expenses(&self.shared_data.templates[i].expenses);
                let ghost fv = fresh.deep_view();
                self.profile_data.expenses.append(&mut fresh);
                proof {
                    assert(self.profile_data.expenses.deep_view() =~= before + fv);
                    assert((before + fv).take(before.len() as int) =~= before);
                    assert((before + fv).skip(before.len() as int) =~= fv);
                }
            },
            None => {},
        }
        self.recompose();
    }

    /// Removes every shared template holding the given id; absence is a
    /// no-op.
    pub fn delete_template(&mut self, id: u128)
        requires
            old(self).wf(),
        ensures
            final(self).wf(),
            final(self).profile_data@ == old(self).profile_data@,
            final(self).config@ == old(self).config@,
            final(self).current_profile_id@ == old(self).current_profile_id@,
            final(self).shared_data@.categories == old(self).shared_data@.categories,
            final(self).shared_data@.category_colors == old(self).shared_data@.category_colors,
            final(self).shared_data@.presets == old(self).shared_data@.presets,
            final(self).shared_data@.templates == old(self).shared_data@.templates.filter(
                |t: TemplateV| t.id != id,
            ),
    {
        delete_template_from(&mut self.shared_data.templates, id);
        self.recompose();
    }

    /// Renames the first shared template holding the given id; absence is
    /// a no-op.
    pub fn rename_template(&mut self, id: u128, new_name: String)
        requires
            old(self).wf(),
        ensures
            final(self).wf(),
            final(self).profile_data@ == old(self).profile_data@,
            final(self).config@ == old(self).config@,
            final(self).current_profile_id@ == old(self).current_profile_id@,
            final(self).shared_data@.categories == old(self).shared_data@.categories,
            final(self).shared_data@.category_colors == old(self).shared_data@.category_colors,
            final(self).shared_data@.presets == old(self).shared_data@.presets,
            rename_result(
                old(self).shared_data@.templates,
                final(self).shared_data@.templates,
                id,
                new_name@,
            ),
    {
        rename_template_in(&mut self.shared_data.templates, id, new_name);
        self.recompose();
    }

    /// Replaces the expense snapshot of the first shared template holding
    /// the given id; absence is a no-op.
    pub fn update_template_expenses(&mut self, id: u128, expenses: Vec<Expense>)
        requires
            old(self).wf(),
        ensures
            final(self).wf(),
            final(self).profile_data@ == old(self).profile_data@,
            final(self).config@ == old(self).config@,
            final(self).current_profile_id@ == old(self).current_profile_id@,
            final(self).shared_data@.categories == old(self).shared_data@.categories,
            final(self).shared_data@.category_colors == old(self).shared_data@.category_colors,
            final(self).shared_data@.presets == old(self).shared_data@.presets,
            update_expenses_result(
                old(self).shared_data@.templates,
                final(self).shared_data@.templates,
                id,
                expenses.deep_view(),
            ),
    {
        update_template_expenses_in(&mut self.shared_data.templates, id, expenses);
        self.recompose();
    }

    /// Appends a preset to the shared data.
    pub fn add_preset(&mut self, preset: ExpensePreset)
        requires
            old(self).wf(),
        ensures
            final(self).wf(),
            final(self).profile_data@ == old(self).profile_data@,
            final(self).config@ == old(self).config@,
            final(self).current_profile_id@ == old(self).current_profile_id@,
            final(self).shared_data@ == (SharedDataV {
                presets: old(self).shared_data@.presets.push(preset@),
                ..old(self).shared_data@
            }),
    {
        self.shared_data.add_preset(preset);
        self.recompose();
    }

    /// Removes every shared preset holding the given id; absence is a
    /// no-op.
    pub fn remove_preset(&mut self, id: u128)
        requires
            old(self).wf(),
        ensures
            final(self).wf(),
            final(self).profile_data@ == old(self).profile_data@,
            final(self).config@ == old(self).config@,
            final(self).current_profile_id@ == old(self).current_profile_id@,
            final(self).shared_data@.categories == old(self).shared_data@.categories,
            final(self).shared_data@.category_colors == old(self).shared_data@.category_colors,
            final(self).shared_data@.templates == old(self).shared_data@.templates,
            final(self).shared_data@.presets == old(self).shared_data@.presets.filter(
                |p: ExpensePresetV| p.id != id,
            ),
    {
        remove_preset_from(&mut self.shared_data.presets, id);
        self.recompose();
    }

    /// Appends a fresh expense built from the shared preset holding the
    /// given id, dated today, to the active ledger; absence is a no-op.
    pub fn add_preset_to_expenses(&mut self, preset_id: u128)
        requires
            old(self).wf(),
        ensures
            final(self).wf(),
            final(self).profile_data@.income == old(self).profile_data@.income,
            instantiate_preset_result(
                old(self).shared_data@.presets,
                old(self).profile_data@.expenses,
                final(self).profile_data@.expenses,
                preset_id,
            ),
            final(self).shared_data@ == old(self).shared_data@,
            final(self).config@ == old(self).config@,
            final(self).current_profile_id@ == old(self).current_profile_id@,
    {
        let ghost before = self.profile_data.expenses.deep_view();
        match find_preset(&self.shared_data.presets, preset_id) {
            Some(i) => {
                let p = &self.shared_data.presets[i];
                let expense = Expense::new(
                    p.amount,
                    p.category.clone(),
                    p.description.clone(),
                    crate::date::today(),
                );
                let ghost ev = expense@;
                self.profile_data.expenses.push(expense);
                proof {
                    assert(self.profile_data.expenses.deep_view() =~= before.push(ev));
                    assert(self.profile_data.expenses.deep_view().take(before.len() as int)
                        =~= before);
                }
            },
            None => {},
        }
        self.recompose();
    }

    /// Appends a shared preset built from the active ledger's expense
    /// holding the given id, under the given display name; absence is a
    /// no-op.
    pub fn create_preset_from_expense(&mut self, expense_id: u128, name: String)
        requires
            old(self).wf(),
        ensures
            final(self).wf(),
            final(self).profile_data@ == old(self).profile_data@,
            final(self).config@ == old(self).config@,
            final(self).current_profile_id@ == old(self).current_profile_id@,
            final(self).shared_data@.categories == old(self).shared_data@.categories,
            final(self).shared_data@.category_colors == old(self).shared_data@.category_colors,
            final(self).shared_data@.templates == old(self).shared_data@.templates,
            preset_from_expense_result(
                old(self).profile_data@.expenses,
                old(self).shared_data@.presets,
                final(self).shared_data@.presets,
                expense_id,
                name@,
            ),
    {
        let ghost before = self.shared_data.presets.deep_view();
        match crate::profile::find_expense(&self.profile_data.expenses, expense_id) {
            Some(i) => {
                let e = &self.profile_data.expenses[i];
                let preset = ExpensePreset::new(
                    name,
                    e.amount,
                    e.category.clone(),
                    e.description.clone(),
                );
                let ghost pv = preset@;
                self.shared_data.presets.push(preset);
                proof {
                    assert(self.shared_data.presets.deep_view() =~= before.push(pv));
                    assert(self.shared_data.presets.deep_view().take(before.len() as int)
                        =~= before);
                }
            },
            None => {},
        }
        self.recompose();
    }

    /// What switching to the given profile asks the shell to do first:
    /// save the resident ledger — with every unsaved in-memory change —
    /// under the current id, and only then load the target's file.
    pub fn plan_switch(&self, profile_id: &str) -> (r: SwitchPlan)
        ensures
            r.save_id@ == self.current_profile_id@,
            r.save_data@ == self.profile_data@,
            r.load_id@ == profile_id@,
    {
        SwitchPlan {
            save_id: self.current_profile_id.clone(),
            save_data: self.profile_data.duplicate(),
            load_id: String::from_str(profile_id),
        }
    }

    /// Makes the given profile resident and active. The ledger handed in
    /// is the one just loaded for it; switching to the profile that is
    /// already resident keeps the resident ledger instead. The
    /// configuration file must be saved afterwards.
    pub fn switch_profile(&mut self, profile_id: &str, loaded: ProfileData)
        requires
            old(self).wf(),
        ensures
            final(self).wf(),
            final(self).current_profile_id@ == profile_id@,
            final(self).config@.active_profile_id == profile_id@,
            final(self).config@.profiles == old(self).config@.profiles,
            final(self).shared_data@ == old(self).shared_data@,
            profile_id@ == old(self).current_profile_id@ ==> final(self).profile_data@ == old(self).profile_data@,
            profile_id@ != old(self).current_profile_id@ ==> final(self).profile_data@ == loaded@,
    {
        if !str_eq(profile_id, self.current_profile_id.as_str()) {
            self.profile_data = loaded;
        }
        self.current_profile_id = String::from_str(profile_id);
        self.config.active_profile_id = String::from_str(profile_id);
        self.recompose();
    }

    /// The id of the profile after the resident one in the registry's
    /// order, wrapping around; `None` when at most one profile exists. A
    /// resident id missing from the registry counts as the first entry.
    pub fn next_profile_id(&self) -> (r: Option<String>)
        ensures
            self.config@.profiles.len() <= 1 ==> r is None,
            self.config@.profiles.len() > 1 ==> r is Some,
            r is Some ==> exists|i: int|
                cycle_witness(
                    profile_ids(self.config@.profiles),
                    self.current_profile_id@,
                    r.unwrap()@,
                    i,
                ),
    {
        let n = self.config.profiles.len();
        if n <= 1 {
            return None;
        }
        let ghost ids = profile_ids(self.config@.profiles);
        let mut idx: usize = 0;
        let mut found = false;
        let mut i: usize = 0;
        while i < n && !found
            invariant
                0 <= i <= n,
                n == self.config.profiles.len(),
                ids == profile_ids(self.config@.profiles),
                ids.len() == n,
                !found ==> idx == 0 && forall|j: int| 0 <= j < i ==> ids[j]
                    != self.current_profile_id@,
                found ==> idx < n && ids[idx as int] == self.current_profile_id@ && (forall|j: int|
                    0 <= j < idx ==> ids[j] != self.current_profile_id@),
            decreases n - i + (if found { 0int } else { 1int }),
        {
            if str_eq(self.config.profiles[i].id.as_str(), self.current_profile_id.as_str()) {
                found = true;
                idx = i;
            } else {
                i = i + 1;
            }
        }
        let next = (idx + 1) % n;
        let next_id = self.config.profiles[next].id.clone();
        let result = Some(next_id);
        proof {
            assert(ids[(idx as int + 1) % ids.len() as int] == result.unwrap()@);
            assert(cycle_witness(ids, self.current_profile_id@, result.unwrap()@, idx as int));
            lemma_cycle_exists(
                profile_ids(self.config@.profiles),
                self.current_profile_id@,
                result.unwrap()@,
                idx as int,
            );
        }
        result
    }

    /// Performs one profile-management intent and reports the file work
    /// it leaves behind. Deleting the active profile is rejected: nothing
    /// changes and no file may be removed. A switch intent changes
    /// nothing here; the caller runs the switch itself.
    pub fn handle_profile_action(&mut self, action: ProfileAction) -> (r: ProfileActionEffect)
        requires
            old(self).wf(),
        ensures
            final(self).wf(),
            final(self).profile_data@ == old(self).profile_data@,
            final(self).shared_data@ == old(self).shared_data@,
            final(self).current_profile_id@ == old(self).current_profile_id@,
            final(self).config@.active_profile_id == old(self).config@.active_profile_id,
            action matches ProfileAction::Create(name) ==> (r matches
                ProfileActionEffect::CreatedProfile(new_id) && {
                let profiles = old(self).config@.profiles;
                &&& !profile_ids(profiles).contains(new_id@)
                &&& final(self).config@.profiles.len() == profiles.len() + 1
                &&& final(self).config@.profiles.take(profiles.len() as int) == profiles
                &&& final(self).config@.profiles.last().id == new_id@
                &&& final(self).config@.profiles.last().name == name@
            }),
            action matches ProfileAction::Duplicate(source_id, new_name) ==> (r matches
                ProfileActionEffect::DuplicatedProfile(src, new_id) && {
                let profiles = old(self).config@.profiles;
                &&& src@ == source_id@
                &&& !profile_ids(profiles).contains(new_id@)
                &&& final(self).config@.profiles.len() == profiles.len() + 1
                &&& final(self).config@.profiles.take(profiles.len() as int) == profiles
                &&& final(self).config@.profiles.last().id == new_id@
                &&& final(self).config@.profiles.last().name == new_name@
            }),
            action matches ProfileAction::Rename(id, new_name) ==> (r is RenamedProfile
                && rename_profile_result(
                old(self).config@.profiles,
                final(self).config@.profiles,
                id@,
                new_name@,
            )),
            action matches ProfileAction::Delete(id) ==> {
                &&& id@ == old(self).config@.active_profile_id ==> r is RejectedDelete && final(self).config@ == old(self).config@
                &&& id@ != old(self).config@.active_profile_id ==> {
                    &&& final(self).config@.profiles == old(self).config@.profiles.filter(
                        |p: crate::config::ProfileMetaV| p.id != id@,
                    )
                    &&& (profile_ids(old(self).config@.profiles).contains(id@) ==> (r matches
                        ProfileActionEffect::DeletedProfile(did) && did@ == id@))
                    &&& (!profile_ids(old(self).config@.profiles).contains(id@)
                        ==> r is RejectedDelete)
                }
            },
            action matches ProfileAction::Switch(id) ==> (r matches
                ProfileActionEffect::SwitchRequested(sid) && sid@ == id@ && final(self).config@
                == old(self).config@),
    {
        match action {
            ProfileAction::Create(name) => {
                let id = self.config.generate_profile_id(name.as_str());
                let meta = ProfileMeta::new(id.clone(), name);
                self.config.add_profile(meta);
                proof {
                    assert(self.config@.profiles.take(old(self).config@.profiles.len() as int)
                        =~= old(self).config@.profiles);
                }
                self.recompose();
                ProfileActionEffect::CreatedProfile(id)
            },
            ProfileAction::Duplicate(source_id, new_name) => {
                let new_id = self.config.generate_profile_id(new_name.as_str());
                let meta = ProfileMeta::new(new_id.clone(), new_name);
                self.config.add_profile(meta);
                proof {
                    assert(self.config@.profiles.take(old(self).config@.profiles.len() as int)
                        =~= old(self).config@.profiles);
                }
                self.recompose();
                ProfileActionEffect::DuplicatedProfile(source_id, new_id)
            },
            ProfileAction::Rename(id, new_name) => {
                self.config.rename_profile(id.as_str(), new_name);
                self.recompose();
                ProfileActionEffect::RenamedProfile
            },
            ProfileAction::Delete(id) => {
                let removed = self.config.remove_profile(id.as_str());
                self.recompose();
                if removed {
                    ProfileActionEffect::DeletedProfile(id)
                } else {
                    ProfileActionEffect::RejectedDelete
                }
            },
            ProfileAction::Switch(id) => {
                self.recompose();
                ProfileActionEffect::SwitchRequested(id)
            },
        }
    }
}

} // verus!
