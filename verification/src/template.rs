//! Templates: named, reusable snapshots of a list of expenses.
//!
//! A template stores copies of expenses decoupled from any profile; placing
//! its contents into a profile always mints new identifiers for the copies,
//! so a template acts as a recipe, never as a live reference.

use vstd::prelude::*;
use crate::expense::{fresh_copy_of, spec_total, total_of, Expense, ExpenseV};
use crate::ids::fresh_id;

verus! {

/// Holds when `dst` is a list of fresh copies of `src`: entry for entry
/// the same amount, category, description and date, every copy active,
/// each under whatever identifier was minted for it.
pub open spec fn fresh_copies_of(src: Seq<ExpenseV>, dst: Seq<ExpenseV>) -> bool {
    &&& dst.len() == src.len()
    &&& forall|i: int| 0 <= i < src.len() ==> fresh_copy_of(src[i], #[trigger] dst[i])
}

/// Two instantiations of one template agree in everything but the minted
/// identifiers: same length, and entry for entry the same amount,
/// category, description, date and active flag.
pub proof fn lemma_instantiations_agree(src: Seq<ExpenseV>, a: Seq<ExpenseV>, b: Seq<ExpenseV>)
    requires
        fresh_copies_of(src, a),
        fresh_copies_of(src, b),
    ensures
        a.len() == b.len(),
        forall|i: int|
            0 <= i < a.len() ==> {
                &&& (#[trigger] a[i]).amount == b[i].amount
                &&& a[i].category == b[i].category
                &&& a[i].description == b[i].description
                &&& a[i].date == b[i].date
                &&& a[i].active == b[i].active
            },
{
}

/// A named snapshot of expenses.
pub struct Template {
    pub id: u128,
    pub name: String,
    pub expenses: Vec<Expense>,
}

/// The mathematical value of a template.
#[verifier::ext_equal]
pub ghost struct TemplateV {
    pub id: u128,
    pub name: Seq<char>,
    pub expenses: Seq<ExpenseV>,
}

impl View for Template {
    type V = TemplateV;

    open spec fn view(&self) -> TemplateV {
        TemplateV { id: self.id, name: self.name@, expenses: self.expenses.deep_view() }
    }
}

impl DeepView for Template {
    type V = TemplateV;

    open spec fn deep_view(&self) -> TemplateV {
        self.view()
    }
}

/// Copies a list of expenses exactly, identifiers included.
pub fn snapshot_expenses(expenses: &Vec<Expense>) -> (r: Vec<Expense>)
    ensures
        r.deep_view() == expenses.deep_view(),
{
    let mut out: Vec<Expense> = Vec::new();
    let mut i: usize = 0;
    while i < expenses.len()
        invariant
            0 <= i <= expenses.len(),
            out.deep_view() =~= expenses.deep_view().take(i as int),
        decreases expenses.len() - i,
    {
        let ghost prev = out.deep_view();
        out.push(expenses[i].snapshot());
        proof {
            assert(out.deep_view() =~= prev.push(expenses.deep_view()[i as int]));
            assert(expenses.deep_view().take(i + 1int) =~= expenses.deep_view().take(
                i as int,
            ).push(expenses.deep_view()[i as int]));
        }
        i = i + 1;
    }
    proof {
        assert(expenses.deep_view().take(expenses.len() as int) =~= expenses.deep_view());
    }
    out
}

/// Relates an expense list to the result of loading the template holding
/// the given id: the list is replaced wholesale by fresh copies of the
/// first matching template's expenses; a template list without a match
/// leaves the expenses unchanged. The templates themselves are never
/// touched by loading.
pub open spec fn load_template_result(
    templates: Seq<TemplateV>,
    before: Seq<ExpenseV>,
    after: Seq<ExpenseV>,
    id: u128,
) -> bool {
    if forall|j: int| 0 <= j < templates.len() ==> templates[j].id != id {
        after == before
    } else {
        exists|i: int|
            {
                &&& 0 <= i < templates.len()
                &&& #[trigger] templates[i].id == id
                &&& (forall|j: int| 0 <= j < i ==> templates[j].id != id)
                &&& fresh_copies_of(templates[i].expenses, after)
            }
    }
}

/// Loading one template twice yields two expense lists that agree in
/// everything but the minted identifiers, whatever the lists looked like
/// before: a template acts as a recipe, and the recipe never changes.
pub proof fn lemma_loads_agree(
    templates: Seq<TemplateV>,
    before1: Seq<ExpenseV>,
    after1: Seq<ExpenseV>,
    before2: Seq<ExpenseV>,
    after2: Seq<ExpenseV>,
    id: u128,
)
    requires
        load_template_result(templates, before1, after1, id),
        load_template_result(templates, before2, after2, id),
        exists|j: int| 0 <= j < templates.len() && templates[j].id == id,
    ensures
        after1.len() == after2.len(),
        forall|i: int|
            0 <= i < after1.len() ==> {
                &&& (#[trigger] after1[i]).amount == after2[i].amount
                &&& after1[i].category == after2[i].category
                &&& after1[i].description == after2[i].description
                &&& after1[i].date == after2[i].date
                &&& after1[i].active == after2[i].active
            },
{
    let i1 = choose|i: int|
        {
            &&& 0 <= i < templates.len()
            &&& #[trigger] templates[i].id == id
            &&& (forall|j: int| 0 <= j < i ==> templates[j].id != id)
            &&& fresh_copies_of(templates[i].expenses, after1)
        };
    let i2 = choose|i: int|
        {
            &&& 0 <= i < templates.len()
            &&& #[trigger] templates[i].id == id
            &&& (forall|j: int| 0 <= j < i ==> templates[j].id != id)
            &&& fresh_copies_of(templates[i].expenses, after2)
        };
    assert(i1 == i2);
    lemma_instantiations_agree(templates[i1].expenses, after1, after2);
}

/// Relates an expense list to the result of appending the template holding
/// the given id: fresh copies of the first matching template's expenses
/// follow the unchanged existing entries; a template list without a match
/// leaves the expenses unchanged.
pub open spec fn append_template_result(
    templates: Seq<TemplateV>,
    before: Seq<ExpenseV>,
    after: Seq<ExpenseV>,
    id: u128,
) -> bool {
    if forall|j: int| 0 <= j < templates.len() ==> templates[j].id != id {
        after == before
    } else {
        exists|i: int|
            {
                &&& 0 <= i < templates.len()
                &&& #[trigger] templates[i].id == id
                &&& (forall|j: int| 0 <= j < i ==> templates[j].id != id)
                &&& after.len() == before.len() + templates[i].expenses.len()
                &&& after.take(before.len() as int) == before
                &&& fresh_copies_of(templates[i].expenses, after.skip(before.len() as int))
            }
    }
}

/// Copies a list of expenses as fresh copies: same contents, new
/// identifiers, all active.
pub fn instantiate_expenses(src: &Vec<Expense>) -> (r: Vec<Expense>)
    ensures
        fresh_copies_of(src.deep_view(), r.deep_view()),
{
    let mut out: Vec<Expense> = Vec::new();
    let mut i: usize = 0;
    while i < src.len()
        invariant
            0 <= i <= src.len(),
            out.deep_view().len() == i,
            forall|j: int|
                0 <= j < i ==> fresh_copy_of(
                    src.deep_view()[j],
                    #[trigger] out.deep_view()[j],
                ),
        decreases src.len() - i,
    {
        let ghost prev = out.deep_view();
        let copy = src[i].copy_with_fresh_id();
        let ghost cv = copy@;
        out.push(copy);
        proof {
            assert(out.deep_view() =~= prev.push(cv));
        }
        i = i + 1;
    }
    out
}

impl Template {
    /// A new template over the given snapshot, under a fresh identifier.
    pub fn new(name: String, expenses: Vec<Expense>) -> (r: Template)
        ensures
            r@ == (TemplateV { id: r.id, name: name@, expenses: expenses.deep_view() }),
    {
        Template { id: fresh_id(), name, expenses }
    }

    /// Exact sum in cents of the template's active expenses.
    pub fn total(&self) -> (t: u128)
        ensures
            t == spec_total(self@.expenses),
    {
        total_of(&self.expenses)
    }
}

} // verus!
