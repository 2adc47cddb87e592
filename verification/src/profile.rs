//! One profile's ledger: its income and its list of expenses.
//!
//! This is the only part of the data model that is not shared across
//! profiles. All amounts are cents; the remaining balance is computed
//! exactly, with an explicit sign instead of a lossy subtraction.

use vstd::prelude::*;
use crate::expense::{fresh_copy_of, spec_total, total_of, Expense, ExpenseV};

verus! {

/// Income and expenses of a single profile.
pub struct ProfileData {
    pub income: u64,
    pub expenses: Vec<Expense>,
}

/// The mathematical value of a profile's ledger.
#[verifier::ext_equal]
pub ghost struct ProfileDataV {
    pub income: u64,
    pub expenses: Seq<ExpenseV>,
}

impl View for ProfileData {
    type V = ProfileDataV;

    open spec fn view(&self) -> ProfileDataV {
        ProfileDataV { income: self.income, expenses: self.expenses.deep_view() }
    }
}

impl DeepView for ProfileData {
    type V = ProfileDataV;

    open spec fn deep_view(&self) -> ProfileDataV {
        self.view()
    }
}

/// An exact signed balance in cents: what remains of the income after the
/// active expenses, or by how much they exceed it.
pub enum Balance {
    Surplus(u128),
    Deficit(u128),
}

impl Balance {
    /// The balance as a mathematical integer.
    pub open spec fn as_int(self) -> int {
        match self {
            Balance::Surplus(n) => n as int,
            Balance::Deficit(n) => -(n as int),
        }
    }
}

/// First position in a list of expenses holding the given id, if any:
/// `Some(i)` points at a match that no earlier entry precedes.
pub fn find_expense(expenses: &Vec<Expense>, id: u128) -> (r: Option<usize>)
    ensures
        r matches Some(i) ==> i < expenses.len() && expenses.deep_view()[i as int].id == id && (
        forall|j: int| 0 <= j < i ==> expenses.deep_view()[j].id != id),
        r is None ==> forall|j: int|
            0 <= j < expenses.len() ==> expenses.deep_view()[j].id != id,
{
    let mut i: usize = 0;
    while i < expenses.len()
        invariant
            0 <= i <= expenses.len(),
            forall|j: int| 0 <= j < i ==> expenses.deep_view()[j].id != id,
        decreases expenses.len() - i,
    {
        if expenses[i].id == id {
            return Some(i);
        }
        i = i + 1;
    }
    None
}

/// Removes every expense holding the given id from the list; a list without
/// a match comes back unchanged.
pub fn remove_expense_from(expenses: &mut Vec<Expense>, id: u128)
    ensures
        final(expenses).deep_view() == old(expenses).deep_view().filter(
            |e: ExpenseV| e.id != id,
        ),
{
    let ghost all = expenses.deep_view();
    let ghost pred = |e: ExpenseV| e.id != id;
    let mut out: Vec<Expense> = Vec::new();
    let mut i: usize = 0;
    while i < expenses.len()
        invariant
            0 <= i <= expenses.len(),
            all == expenses.deep_view(),
            all.len() == expenses.len(),
            pred == (|e: ExpenseV| e.id != id),
            out.deep_view() =~= all.take(i as int).filter(pred),
        decreases expenses.len() - i,
    {
        proof {
            reveal(Seq::filter);
            assert(all.take(i + 1int).drop_last() =~= all.take(i as int));
            assert(all.take(i + 1int).last() == all[i as int]);
        }
        let ghost prev = out.deep_view();
        if expenses[i].id != id {
            out.push(expenses[i].snapshot());
            proof {
                assert(out.deep_view() =~= prev.push(all[i as int]));
            }
        }
        i = i + 1;
    }
    proof {
        assert(all.take(expenses.len() as int) =~= all);
    }
    *expenses = out;
}

/// Relates a list of expenses to the result of toggling the entry holding
/// the given id: the first match has its active flag flipped and every
/// other entry is untouched; a list without a match is unchanged.
pub open spec fn toggle_result(before: Seq<ExpenseV>, after: Seq<ExpenseV>, id: u128) -> bool {
    if forall|j: int| 0 <= j < before.len() ==> before[j].id != id {
        after == before
    } else {
        exists|i: int|
            {
                &&& 0 <= i < before.len()
                &&& #[trigger] before[i].id == id
                &&& (forall|j: int| 0 <= j < i ==> before[j].id != id)
                &&& after == before.update(i, ExpenseV { active: !before[i].active, ..before[i] })
            }
    }
}

/// Toggling an expense moves the total by exactly that expense's amount —
/// subtracted when it was active, added when it was not — and leaves every
/// other expense untouched; toggling an absent id changes nothing.
pub proof fn lemma_toggle_total_change(before: Seq<ExpenseV>, after: Seq<ExpenseV>, id: u128)
    requires
        toggle_result(before, after, id),
    ensures
        (forall|j: int| 0 <= j < before.len() ==> before[j].id != id) ==> spec_total(after)
            == spec_total(before),
        (exists|j: int| 0 <= j < before.len() && before[j].id == id) ==> exists|i: int|
            {
                &&& 0 <= i < before.len()
                &&& #[trigger] before[i].id == id
                &&& spec_total(after) == spec_total(before) + (if before[i].active {
                    -(before[i].amount as int)
                } else {
                    before[i].amount as int
                })
                &&& forall|j: int| 0 <= j < before.len() && j != i ==> after[j] == before[j]
            },
{
    if exists|j: int| 0 <= j < before.len() && before[j].id == id {
        let i = choose|i: int|
            {
                &&& 0 <= i < before.len()
                &&& #[trigger] before[i].id == id
                &&& (forall|j: int| 0 <= j < i ==> before[j].id != id)
                &&& after == before.update(
                    i,
                    ExpenseV { active: !before[i].active, ..before[i] },
                )
            };
        crate::expense::lemma_toggle_moves_total(before, i);
    }
}

/// Flips the active flag of the first expense holding the given id; a list
/// without a match comes back unchanged.
pub fn toggle_expense_in(expenses: &mut Vec<Expense>, id: u128)
    ensures
        toggle_result(old(expenses).deep_view(), final(expenses).deep_view(), id),
{
    let ghost before = expenses.deep_view();
    match find_expense(expenses, id) {
        Some(i) => {
            let e = expenses.remove(i);
            let flipped = Expense { active: !e.active, ..e };
            expenses.insert(i, flipped);
            proof {
                assert(expenses.deep_view() =~= before.update(
                    i as int,
                    ExpenseV { active: !before[i as int].active, ..before[i as int] },
                ));
            }
        },
        None => {
            proof {
                assert(expenses.deep_view() =~= before);
            }
        },
    }
}

impl Default for ProfileData {
    /// The empty ledger.
    fn default() -> (r: ProfileData)
        ensures
            r@.income == 0,
            r@.expenses == Seq::<ExpenseV>::empty(),
    {
        ProfileData::new()
    }
}

impl ProfileData {
    /// A fresh ledger: no income, no expenses.
    pub fn new() -> (r: ProfileData)
        ensures
            r@.income == 0,
            r@.expenses == Seq::<ExpenseV>::empty(),
    {
        ProfileData { income: 0, expenses: Vec::new() }
    }

    /// Exact total in cents of the active expenses.
    pub fn total_expenses(&self) -> (t: u128)
        ensures
            t == spec_total(self@.expenses),
    {
        total_of(&self.expenses)
    }

    /// Exact remaining balance: income minus the total of active expenses.
    pub fn remaining_balance(&self) -> (r: Balance)
        ensures
            r.as_int() == self@.income - spec_total(self@.expenses),
            r matches Balance::Deficit(n) ==> n > 0,
    {
        let total = self.total_expenses();
        proof {
            crate::expense::lemma_total_bounds(self@.expenses);
        }
        if total <= self.income as u128 {
            Balance::Surplus(self.income as u128 - total)
        } else {
            Balance::Deficit(total - self.income as u128)
        }
    }

    /// Overwrites the income.
    pub fn set_income(&mut self, amount: u64)
        ensures
            final(self)@ == (ProfileDataV { income: amount, ..old(self)@ }),
    {
        self.income = amount;
    }

    /// Appends an expense to the ledger.
    pub fn add_expense(&mut self, expense: Expense)
        ensures
            final(self)@ == (ProfileDataV {
                expenses: old(self)@.expenses.push(expense@),
                ..old(self)@
            }),
    {
        let ghost prev = self.expenses.deep_view();
        self.expenses.push(expense);
        proof {
            assert(self.expenses.deep_view() =~= prev.push(expense@));
            assert(self@ =~= (ProfileDataV { expenses: prev.push(expense@), ..old(self)@ }));
        }
    }

    /// Removes the expense holding the given id, by identifier rather than
    /// by position; absence is a no-op, not an error.
    pub fn remove_expense(&mut self, id: u128)
        ensures
            final(self)@.income == old(self)@.income,
            final(self)@.expenses == old(self)@.expenses.filter(|e: ExpenseV| e.id != id),
    {
        remove_expense_from(&mut self.expenses, id);
    }

    /// Flips the active flag of the expense holding the given id; absence
    /// is a no-op.
    pub fn toggle_expense_active(&mut self, id: u128)
        ensures
            final(self)@.income == old(self)@.income,
            toggle_result(old(self)@.expenses, final(self)@.expenses, id),
    {
        toggle_expense_in(&mut self.expenses, id);
    }

    /// An exact copy of the ledger, expense identifiers included; this is
    /// what duplicating a profile writes under the new id.
    pub fn duplicate(&self) -> (r: ProfileData)
        ensures
            r@ == self@,
    {
        let r = ProfileData {
            income: self.income,
            expenses: crate::template::snapshot_expenses(&self.expenses),
        };
        proof {
            assert(r@ =~= self@);
        }
        r
    }
}

} // verus!
