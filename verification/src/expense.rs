//! A single expense record and the arithmetic over lists of expenses.
//!
//! Amounts are held in minor currency units (cents) as unsigned integers,
//! so every total in the library is exact. An expense is identified by the
//! id minted when it was created; a list of expenses is always manipulated
//! by id, never by position.

use vstd::prelude::*;
use crate::date::Date;
use crate::ids::fresh_id;

verus! {

/// One expense: an amount in cents under a category, with a free-text
/// description, a calendar date, and an active flag that decides whether
/// it counts toward the totals.
pub struct Expense {
    pub id: u128,
    pub amount: u64,
    pub category: String,
    pub description: String,
    pub date: Date,
    pub active: bool,
}

/// The mathematical value of an expense: the same fields with the texts
/// as character sequences.
#[verifier::ext_equal]
pub ghost struct ExpenseV {
    pub id: u128,
    pub amount: u64,
    pub category: Seq<char>,
    pub description: Seq<char>,
    pub date: Date,
    pub active: bool,
}

impl View for Expense {
    type V = ExpenseV;

    open spec fn view(&self) -> ExpenseV {
        ExpenseV {
            id: self.id,
            amount: self.amount,
            category: self.category@,
            description: self.description@,
            date: self.date,
            active: self.active,
        }
    }
}

impl DeepView for Expense {
    type V = ExpenseV;

    open spec fn deep_view(&self) -> ExpenseV {
        self.view()
    }
}

/// Holds when `copy` is a fresh copy of `src`: the same amount, category,
/// description and date, active, and whatever identifier was minted for it.
pub open spec fn fresh_copy_of(src: ExpenseV, copy: ExpenseV) -> bool {
    &&& copy.amount == src.amount
    &&& copy.category == src.category
    &&& copy.description == src.description
    &&& copy.date == src.date
    &&& copy.active
}

impl Expense {
    /// A new expense starts active, under a freshly minted identifier.
    pub fn new(amount: u64, category: String, description: String, date: Date) -> (r: Expense)
        ensures
            r@ == (ExpenseV {
                id: r.id,
                amount,
                category: category@,
                description: description@,
                date,
                active: true,
            }),
    {
        Expense { id: fresh_id(), amount, category, description, date, active: true }
    }

    /// An exact copy, identifier included, for template snapshots.
    pub fn snapshot(&self) -> (r: Expense)
        ensures
            r@ == self@,
    {
        Expense {
            id: self.id,
            amount: self.amount,
            category: self.category.clone(),
            description: self.description.clone(),
            date: self.date,
            active: self.active,
        }
    }

    /// A copy under a fresh identifier, used when a template is loaded or
    /// appended into a profile.
    pub fn copy_with_fresh_id(&self) -> (r: Expense)
        ensures
            fresh_copy_of(self@, r@),
    {
        Expense::new(self.amount, self.category.clone(), self.description.clone(), self.date)
    }
}

/// Sum in cents of the active expenses of a list.
pub open spec fn spec_total(s: Seq<ExpenseV>) -> int
    decreases s.len(),
{
    if s.len() == 0 {
        0
    } else {
        spec_total(s.drop_last()) + if s.last().active {
            s.last().amount as int
        } else {
            0int
        }
    }
}

/// The total of a list sits between zero and one maximal amount per entry.
pub proof fn lemma_total_bounds(s: Seq<ExpenseV>)
    ensures
        0 <= spec_total(s) <= s.len() * (u64::MAX as int),
    decreases s.len(),
{
    if s.len() == 0 {
    } else {
        lemma_total_bounds(s.drop_last());
        assert((s.len() - 1) * (u64::MAX as int) + (u64::MAX as int) == s.len() * (
        u64::MAX as int)) by (nonlinear_arith);
    }
}

/// Replacing one entry of a list moves its total by exactly the difference
/// of the two entries' contributions; every other entry is untouched.
pub proof fn lemma_total_update(s: Seq<ExpenseV>, i: int, e: ExpenseV)
    requires
        0 <= i < s.len(),
    ensures
        spec_total(s.update(i, e)) == spec_total(s) - (if s[i].active {
            s[i].amount as int
        } else {
            0int
        }) + (if e.active {
            e.amount as int
        } else {
            0int
        }),
    decreases s.len(),
{
    let t = s.update(i, e);
    if i == s.len() - 1 {
        assert(t.drop_last() =~= s.drop_last());
    } else {
        assert(t.drop_last() =~= s.drop_last().update(i, e));
        lemma_total_update(s.drop_last(), i, e);
    }
}

/// Flipping the active flag of one entry moves the total of a list by
/// exactly that entry's amount — subtracted when the entry was active,
/// added when it was not — and leaves every other entry untouched.
pub proof fn lemma_toggle_moves_total(s: Seq<ExpenseV>, i: int)
    requires
        0 <= i < s.len(),
    ensures
        ({
            let t = s.update(i, ExpenseV { active: !s[i].active, ..s[i] });
            &&& spec_total(t) == spec_total(s) + (if s[i].active {
                -(s[i].amount as int)
            } else {
                s[i].amount as int
            })
            &&& forall|j: int| 0 <= j < s.len() && j != i ==> t[j] == s[j]
        }),
{
    lemma_total_update(s, i, ExpenseV { active: !s[i].active, ..s[i] });
}

/// Exact total in cents of the active expenses; the wide result type keeps
/// the sum exact for any list length.
pub fn total_of(expenses: &Vec<Expense>) -> (t: u128)
    ensures
        t == spec_total(expenses.deep_view()),
{
    let ghost all = expenses.deep_view();
    let mut t: u128 = 0;
    let mut i: usize = 0;
    while i < expenses.len()
        invariant
            0 <= i <= expenses.len(),
            all == expenses.deep_view(),
            all.len() == expenses.len(),
            t == spec_total(all.take(i as int)),
        decreases expenses.len() - i,
    {
        proof {
            lemma_total_bounds(all.take(i as int));
            assert(all.take(i as int).len() * (u64::MAX as int) + (u64::MAX as int) < u128::MAX)
                by (nonlinear_arith)
                requires
                    0 <= all.take(i as int).len() < 0x1_0000_0000_0000_0000,
            ;
            assert(all.take(i + 1int).drop_last() =~= all.take(i as int));
            assert(all.take(i + 1int).last() == all[i as int]);
        }
        let e = &expenses[i];
        if e.active {
            t = t + e.amount as u128;
        }
        i = i + 1;
    }
    proof {
        assert(all.take(expenses.len() as int) =~= all);
    }
    t
}

} // verus!
