use budgetbot::date::Date;
use budgetbot::expense::Expense;
use budgetbot::preset::ExpensePreset;
use budgetbot::shared::{CategoryColor, SharedData};
use budgetbot::template::Template;

fn color(r: u8, g: u8, b: u8) -> CategoryColor {
    CategoryColor { r, g, b }
}

fn expense(amount: u64, category: &str) -> Expense {
    Expense::new(
        amount,
        String::from(category),
        String::new(),
        Date::new(2024, 1, 2).unwrap(),
    )
}

#[test]
fn defaults_hold_the_built_in_categories() {
    let s = SharedData::new();
    let names: Vec<&str> = s.categories.iter().map(|c| c.as_str()).collect();
    assert_eq!(
        names,
        vec![
            "Food & Groceries",
            "Transportation",
            "Housing & Utilities",
            "Entertainment",
            "Healthcare",
            "Shopping",
            "Other"
        ]
    );
    assert_eq!(s.category_colors.len(), 7);
    assert!(s.templates.is_empty());
    assert!(s.presets.is_empty());
    assert_eq!(s.get_category_color("Food & Groceries"), color(34, 197, 94));
}

#[test]
fn adding_a_category_trims_and_stores_its_color() {
    let mut s = SharedData::new();
    s.add_category_with_color(String::from("  Pets  "), color(1, 2, 3));
    assert_eq!(s.categories.last().unwrap(), "Pets");
    assert_eq!(s.get_category_color("Pets"), color(1, 2, 3));
}

#[test]
fn empty_or_duplicate_category_names_are_ignored() {
    let mut s = SharedData::new();
    let before = s.categories.len();
    s.add_category_with_color(String::from("   "), color(1, 2, 3));
    assert_eq!(s.categories.len(), before);
    s.add_category_with_color(String::from("Other"), color(9, 9, 9));
    assert_eq!(s.categories.len(), before);
    // The duplicate check is case-sensitive: a differently cased name is new.
    s.add_category_with_color(String::from("other"), color(9, 9, 9));
    assert_eq!(s.categories.len(), before + 1);
}

#[test]
fn unknown_categories_read_as_gray() {
    let s = SharedData::new();
    assert_eq!(s.get_category_color("Nothing"), color(156, 163, 175));
}

#[test]
fn recoloring_touches_existing_categories_only() {
    let mut s = SharedData::new();
    s.set_category_color("Other", color(10, 20, 30));
    assert_eq!(s.get_category_color("Other"), color(10, 20, 30));
    s.set_category_color("Missing", color(1, 1, 1));
    assert_eq!(s.get_category_color("Missing"), color(156, 163, 175));
}

#[test]
fn removing_a_category_drops_name_and_color() {
    let mut s = SharedData::new();
    let before = s.categories.len();
    s.remove_category("Shopping");
    assert_eq!(s.categories.len(), before - 1);
    assert!(!s.categories.iter().any(|c| c == "Shopping"));
    assert_eq!(s.get_category_color("Shopping"), color(156, 163, 175));
}

#[test]
fn presets_are_added_found_and_removed_by_id() {
    let mut s = SharedData::new();
    let p = ExpensePreset::new(
        String::from("Netflix"),
        1599,
        String::from("Entertainment"),
        String::from("subscription"),
    );
    let id = p.id;
    s.add_preset(p);
    assert_eq!(s.presets.len(), 1);
    let found = s.get_preset(id).expect("preset should be found");
    assert_eq!(found.name, "Netflix");
    assert!(s.get_preset(id ^ 1).is_none());
    s.remove_preset(id);
    assert!(s.presets.is_empty());
    s.remove_preset(id);
    assert!(s.presets.is_empty());
}

#[test]
fn templates_are_managed_by_id() {
    let mut s = SharedData::new();
    let t = Template::new(String::from("Month"), vec![expense(100, "Other")]);
    let id = t.id;
    s.add_template(t);
    assert_eq!(s.templates.len(), 1);

    s.rename_template(id, String::from("Monthly"));
    assert_eq!(s.templates[0].name, "Monthly");
    s.rename_template(id ^ 1, String::from("Ignored"));
    assert_eq!(s.templates[0].name, "Monthly");

    s.update_template_expenses(id, vec![expense(1, "Other"), expense(2, "Other")]);
    assert_eq!(s.templates[0].expenses.len(), 2);

    s.delete_template(id ^ 1);
    assert_eq!(s.templates.len(), 1);
    s.delete_template(id);
    assert!(s.templates.is_empty());
}
