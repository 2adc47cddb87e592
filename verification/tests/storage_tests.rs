use budgetbot::budget::Budget;
use budgetbot::config::AppConfig;
use budgetbot::date::Date;
use budgetbot::expense::Expense;
use budgetbot::profile::ProfileData;
use budgetbot::shared::{CategoryColor, ColorEntry};
use budgetbot::storage::{
    budget_or_default, config_or_default, duplicate_profile, join_path, needs_migration,
    plan_migration, profile_file_name, profile_or_default, shared_from_parts,
};

fn legacy_budget() -> Budget {
    let mut b = Budget::new();
    b.set_income(100_000);
    b.add_expense(Expense::new(
        2_500,
        String::from("Food"),
        String::from("groceries"),
        Date::new(2023, 11, 5).unwrap(),
    ));
    b.remove_category("Shopping");
    b
}

#[test]
fn migration_runs_exactly_when_legacy_exists_without_config() {
    assert!(needs_migration(true, false));
    assert!(!needs_migration(true, true));
    assert!(!needs_migration(false, false));
    assert!(!needs_migration(false, true));
}

#[test]
fn the_migration_plan_splits_the_legacy_document() {
    let plan = plan_migration(true, false, legacy_budget()).expect("migration should run");
    assert_eq!(plan.profile.income, 100_000);
    assert_eq!(plan.profile.expenses.len(), 1);
    assert_eq!(plan.profile.expenses[0].description, "groceries");
    assert!(!plan.shared.categories.iter().any(|c| c == "Shopping"));
    assert_eq!(plan.config.active_profile_id, "main");
    assert_eq!(plan.config.profiles.len(), 1);
    assert_eq!(plan.config.profiles[0].id, "main");
}

#[test]
fn a_second_migration_run_is_a_no_op() {
    assert!(plan_migration(true, false, legacy_budget()).is_some());
    // After the first run the configuration file exists, so the second
    // run has nothing to do whatever the directory holds.
    assert!(plan_migration(true, true, legacy_budget()).is_none());
    assert!(plan_migration(false, true, legacy_budget()).is_none());
}

#[test]
fn a_fresh_install_reads_as_the_default_state() {
    let c = config_or_default(None);
    assert_eq!(c.active_profile_id, "main");
    assert_eq!(c.profiles.len(), 1);
    assert_eq!(c.profiles[0].id, "main");
    assert_eq!(c.profiles[0].name, "Main Budget");

    let p = profile_or_default(None);
    assert_eq!(p.income, 0);
    assert!(p.expenses.is_empty());
}

#[test]
fn readable_files_pass_through_unchanged() {
    let mut given = ProfileData::new();
    given.set_income(7);
    let p = profile_or_default(Some(given));
    assert_eq!(p.income, 7);

    let c = config_or_default(Some(AppConfig {
        active_profile_id: String::from("trip"),
        profiles: Vec::new(),
    }));
    assert_eq!(c.active_profile_id, "trip");

    let b = budget_or_default(None);
    assert_eq!(b.income, 0);
    assert_eq!(b.categories.len(), 7);
}

#[test]
fn shared_sections_default_independently() {
    let s = shared_from_parts(
        None,
        Some(Vec::new()),
        None,
    );
    assert_eq!(s.categories.len(), 7);
    assert!(s.presets.is_empty());
    assert!(s.templates.is_empty());

    let custom = shared_from_parts(
        Some((
            vec![String::from("Food")],
            vec![ColorEntry {
                name: String::from("Food"),
                color: CategoryColor { r: 1, g: 2, b: 3 },
            }],
        )),
        None,
        None,
    );
    assert_eq!(custom.categories.len(), 1);
    assert_eq!(custom.categories[0], "Food");
    assert_eq!(custom.category_colors.len(), 1);
}

#[test]
fn duplicating_a_profile_copies_the_ledger_exactly() {
    let mut source = ProfileData::new();
    source.set_income(500);
    source.add_expense(Expense::new(
        100,
        String::from("Other"),
        String::new(),
        Date::new(2024, 1, 1).unwrap(),
    ));
    let copy = duplicate_profile(&source);
    assert_eq!(copy.income, 500);
    assert_eq!(copy.expenses.len(), 1);
    assert_eq!(copy.expenses[0].id, source.expenses[0].id);
}

#[test]
fn file_names_follow_the_layout() {
    assert_eq!(profile_file_name("vacation"), "vacation.json");
    assert_eq!(join_path("/data", "config.json"), "/data/config.json");
    assert_eq!(join_path("", "shared"), "/shared");
}
