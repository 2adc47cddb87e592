use budgetbot::date::{days_in_month, is_leap_year, Date};
use budgetbot::expense::{total_of, Expense};
use budgetbot::preset::ExpensePreset;
use budgetbot::profile::{Balance, ProfileData};
use budgetbot::template::Template;
use budgetbot::text::{format_cents, str_eq, trim, u64_to_string};

fn date(year: i32, month: u8, day: u8) -> Date {
    Date::new(year, month, day).unwrap()
}

fn expense(amount: u64, category: &str, description: &str) -> Expense {
    Expense::new(
        amount,
        String::from(category),
        String::from(description),
        date(2024, 5, 17),
    )
}

#[test]
fn new_expense_is_active_with_given_fields() {
    let e = expense(1250, "Food & Groceries", "lunch");
    assert!(e.active);
    assert_eq!(e.amount, 1250);
    assert_eq!(e.category, "Food & Groceries");
    assert_eq!(e.description, "lunch");
    assert_eq!(e.date, date(2024, 5, 17));
}

#[test]
fn new_expenses_get_distinct_identifiers() {
    let a = expense(100, "Other", "");
    let b = expense(100, "Other", "");
    assert_ne!(a.id, b.id);
}

#[test]
fn total_counts_active_expenses_only() {
    let mut p = ProfileData::new();
    p.add_expense(expense(1000, "Other", "a"));
    p.add_expense(expense(2500, "Other", "b"));
    p.add_expense(expense(400, "Other", "c"));
    assert_eq!(p.total_expenses(), 3900);
    let second = p.expenses[1].id;
    p.toggle_expense_active(second);
    assert_eq!(p.total_expenses(), 1400);
    p.toggle_expense_active(second);
    assert_eq!(p.total_expenses(), 3900);
}

#[test]
fn toggling_moves_total_by_exactly_that_amount() {
    let mut p = ProfileData::new();
    p.add_expense(expense(700, "Other", "x"));
    p.add_expense(expense(55, "Other", "y"));
    let before = p.total_expenses();
    let id = p.expenses[0].id;
    p.toggle_expense_active(id);
    assert_eq!(p.total_expenses(), before - 700);
    assert_eq!(p.expenses[1].amount, 55);
    assert!(p.expenses[1].active);
}

#[test]
fn toggle_of_missing_id_changes_nothing() {
    let mut p = ProfileData::new();
    p.add_expense(expense(700, "Other", "x"));
    p.toggle_expense_active(u128::MAX);
    assert!(p.expenses[0].active);
    assert_eq!(p.total_expenses(), 700);
}

#[test]
fn remaining_balance_is_income_minus_active_total() {
    let mut p = ProfileData::new();
    p.set_income(100_000);
    p.add_expense(expense(25_000, "Housing & Utilities", "rent"));
    p.add_expense(expense(4_999, "Food & Groceries", ""));
    match p.remaining_balance() {
        Balance::Surplus(n) => assert_eq!(n, 70_001),
        Balance::Deficit(_) => panic!("expected a surplus"),
    }
}

#[test]
fn overspending_yields_an_exact_deficit() {
    let mut p = ProfileData::new();
    p.set_income(1_000);
    p.add_expense(expense(2_500, "Other", ""));
    match p.remaining_balance() {
        Balance::Surplus(_) => panic!("expected a deficit"),
        Balance::Deficit(n) => assert_eq!(n, 1_500),
    }
}

#[test]
fn a_balanced_ledger_has_a_zero_surplus() {
    let mut p = ProfileData::new();
    p.set_income(300);
    p.add_expense(expense(300, "Other", ""));
    match p.remaining_balance() {
        Balance::Surplus(n) => assert_eq!(n, 0),
        Balance::Deficit(_) => panic!("a deficit is never zero"),
    }
}

#[test]
fn remove_expense_removes_by_identifier() {
    let mut p = ProfileData::new();
    p.add_expense(expense(100, "Other", "keep"));
    p.add_expense(expense(200, "Other", "drop"));
    let id = p.expenses[1].id;
    p.remove_expense(id);
    assert_eq!(p.expenses.len(), 1);
    assert_eq!(p.expenses[0].description, "keep");
    p.remove_expense(id);
    assert_eq!(p.expenses.len(), 1);
}

#[test]
fn duplicate_is_a_deep_copy_with_same_identifiers() {
    let mut p = ProfileData::new();
    p.set_income(500);
    p.add_expense(expense(100, "Other", "a"));
    let mut copy = p.duplicate();
    assert_eq!(copy.income, 500);
    assert_eq!(copy.expenses.len(), 1);
    assert_eq!(copy.expenses[0].id, p.expenses[0].id);
    copy.set_income(900);
    assert_eq!(p.income, 500);
}

#[test]
fn preset_day_is_clamped_into_the_calendar() {
    let p = ExpensePreset::new(String::from("Gym"), 3000, String::from("Other"), String::new());
    assert_eq!(p.default_day, None);
    let p = p.with_day(0);
    assert_eq!(p.default_day, Some(1));
    let p = p.with_day(40);
    assert_eq!(p.default_day, Some(31));
    let p = p.with_day(15);
    assert_eq!(p.default_day, Some(15));
}

#[test]
fn template_total_counts_active_entries() {
    let a = expense(1000, "Other", "");
    let b = expense(500, "Other", "");
    let t = Template::new(String::from("Month"), vec![a, b]);
    assert_eq!(t.total(), 1500);
    assert_eq!(total_of(&t.expenses), 1500);
}

#[test]
fn leap_year_rules() {
    assert!(is_leap_year(2024));
    assert!(!is_leap_year(2023));
    assert!(!is_leap_year(1900));
    assert!(is_leap_year(2000));
}

#[test]
fn month_lengths() {
    assert_eq!(days_in_month(2023, 1), 31);
    assert_eq!(days_in_month(2023, 2), 28);
    assert_eq!(days_in_month(2024, 2), 29);
    assert_eq!(days_in_month(2023, 4), 30);
    assert_eq!(days_in_month(2023, 12), 31);
    assert_eq!(days_in_month(2023, 0), 30);
}

#[test]
fn date_validation() {
    assert!(Date::new(2024, 2, 29).is_some());
    assert!(Date::new(2023, 2, 29).is_none());
    assert!(Date::new(2023, 13, 1).is_none());
    assert!(Date::new(2023, 6, 0).is_none());
}

#[test]
fn cents_are_formatted_with_two_decimals() {
    assert_eq!(format_cents(0), "0.00");
    assert_eq!(format_cents(5), "0.05");
    assert_eq!(format_cents(105), "1.05");
    assert_eq!(format_cents(123_456), "1234.56");
}

#[test]
fn numbers_render_in_decimal() {
    assert_eq!(u64_to_string(0), "0");
    assert_eq!(u64_to_string(7), "7");
    assert_eq!(u64_to_string(12345), "12345");
}

#[test]
fn trim_strips_whitespace_on_both_sides() {
    assert_eq!(trim("  a b  "), "a b");
    assert_eq!(trim("none"), "none");
    assert_eq!(trim("   "), "");
    assert_eq!(trim(""), "");
}

#[test]
fn str_eq_compares_characters() {
    assert!(str_eq("abc", "abc"));
    assert!(!str_eq("abc", "abd"));
    assert!(!str_eq("abc", "ab"));
    assert!(str_eq("", ""));
}
