use budgetbot::config::{AppConfig, ProfileMeta};
use budgetbot::date::Date;
use budgetbot::expense::Expense;
use budgetbot::forms::{AddCategoryPopup, CategoryManager, IncomeForm, ProfileAction, ProfileManager, ProfileSelector};
use budgetbot::preset::ExpensePreset;
use budgetbot::profile::ProfileData;
use budgetbot::session::{compose_budget, BudgetApp, ProfileActionEffect};
use budgetbot::shared::{CategoryColor, SharedData};
use budgetbot::template::Template;

fn expense(amount: u64, description: &str) -> Expense {
    Expense::new(
        amount,
        String::from("Other"),
        String::from(description),
        Date::new(2024, 3, 3).unwrap(),
    )
}

fn session() -> BudgetApp {
    BudgetApp::new(AppConfig::new_default(), ProfileData::new(), SharedData::new())
}

fn two_profile_session() -> BudgetApp {
    let mut config = AppConfig::new_default();
    config.add_profile(ProfileMeta::new(String::from("trip"), String::from("Trip")));
    BudgetApp::new(config, ProfileData::new(), SharedData::new())
}

#[test]
fn the_composed_view_mirrors_profile_and_shared_data() {
    let mut profile = ProfileData::new();
    profile.set_income(4200);
    profile.add_expense(expense(100, "coffee"));
    let shared = SharedData::new();
    let budget = compose_budget(&profile, &shared);
    assert_eq!(budget.income, 4200);
    assert_eq!(budget.expenses.len(), 1);
    assert_eq!(budget.categories.len(), 7);
}

#[test]
fn mutations_recompose_the_view() {
    let mut s = session();
    s.set_income(9000);
    assert_eq!(s.budget.income, 9000);
    s.add_expense(expense(1500, "fuel"));
    assert_eq!(s.budget.expenses.len(), 1);
    let id = s.profile_data.expenses[0].id;
    s.toggle_expense_active(id);
    assert!(!s.budget.expenses[0].active);
    s.remove_expense(id);
    assert!(s.budget.expenses.is_empty());
}

#[test]
fn category_intents_reach_the_shared_data() {
    let mut s = session();
    s.add_category(String::from(" Pets "), CategoryColor { r: 1, g: 2, b: 3 });
    assert_eq!(s.budget.categories.last().unwrap(), "Pets");
    s.set_category_color("Pets", CategoryColor { r: 4, g: 5, b: 6 });
    assert_eq!(
        s.shared_data.get_category_color("Pets"),
        CategoryColor { r: 4, g: 5, b: 6 }
    );
    s.remove_category("Pets");
    assert!(!s.budget.categories.iter().any(|c| c == "Pets"));
}

#[test]
fn switching_flushes_the_resident_ledger_first() {
    let mut s = two_profile_session();
    s.add_expense(expense(1234, "unsaved addition"));

    let plan = s.plan_switch("trip");
    assert_eq!(plan.save_id, "main");
    assert_eq!(plan.save_data.expenses.len(), 1);
    assert_eq!(plan.save_data.expenses[0].description, "unsaved addition");
    assert_eq!(plan.load_id, "trip");

    s.switch_profile("trip", ProfileData::new());
    assert_eq!(s.current_profile_id, "trip");
    assert_eq!(s.config.active_profile_id, "trip");
    assert!(s.profile_data.expenses.is_empty());
    assert!(s.budget.expenses.is_empty());
}

#[test]
fn switching_to_the_resident_profile_keeps_its_ledger() {
    let mut s = session();
    s.add_expense(expense(10, "kept"));
    s.switch_profile("main", ProfileData::new());
    assert_eq!(s.profile_data.expenses.len(), 1);
}

#[test]
fn creating_a_profile_grows_the_registry_without_switching() {
    let mut s = session();
    let effect = s.handle_profile_action(ProfileAction::Create(String::from("Vacation")));
    match effect {
        ProfileActionEffect::CreatedProfile(id) => assert_eq!(id, "vacation"),
        _ => panic!("expected a created profile"),
    }
    assert_eq!(s.config.profiles.len(), 2);
    assert_eq!(s.config.profiles[1].id, "vacation");
    assert_eq!(s.config.profiles[1].name, "Vacation");
    assert_eq!(s.current_profile_id, "main");

    let effect = s.handle_profile_action(ProfileAction::Create(String::from("Vacation")));
    match effect {
        ProfileActionEffect::CreatedProfile(id) => assert_eq!(id, "vacation-1"),
        _ => panic!("expected a created profile"),
    }
}

#[test]
fn deleting_the_active_profile_is_rejected() {
    let mut s = two_profile_session();
    let effect = s.handle_profile_action(ProfileAction::Delete(String::from("main")));
    assert!(matches!(effect, ProfileActionEffect::RejectedDelete));
    assert_eq!(s.config.profiles.len(), 2);
    assert_eq!(s.config.active_profile_id, "main");
}

#[test]
fn deleting_another_profile_reports_the_file_to_remove() {
    let mut s = two_profile_session();
    let effect = s.handle_profile_action(ProfileAction::Delete(String::from("trip")));
    match effect {
        ProfileActionEffect::DeletedProfile(id) => assert_eq!(id, "trip"),
        _ => panic!("expected a deletion"),
    }
    assert_eq!(s.config.profiles.len(), 1);
    let effect = s.handle_profile_action(ProfileAction::Delete(String::from("trip")));
    assert!(matches!(effect, ProfileActionEffect::RejectedDelete));
}

#[test]
fn duplicate_and_rename_manage_the_registry() {
    let mut s = session();
    let effect = s.handle_profile_action(ProfileAction::Duplicate(
        String::from("main"),
        String::from("Main Budget"),
    ));
    match effect {
        ProfileActionEffect::DuplicatedProfile(src, new_id) => {
            assert_eq!(src, "main");
            assert_eq!(new_id, "main-budget");
        }
        _ => panic!("expected a duplication"),
    }
    s.handle_profile_action(ProfileAction::Rename(
        String::from("main-budget"),
        String::from("Backup"),
    ));
    assert_eq!(s.config.profiles[1].name, "Backup");
}

#[test]
fn cycling_wraps_through_the_registry() {
    let mut s = two_profile_session();
    assert_eq!(s.next_profile_id().unwrap(), "trip");
    s.switch_profile("trip", ProfileData::new());
    assert_eq!(s.next_profile_id().unwrap(), "main");

    let single = session();
    assert!(single.next_profile_id().is_none());
}

#[test]
fn cycling_with_an_unknown_resident_id_starts_from_the_front() {
    let mut config = AppConfig::new_default();
    config.add_profile(ProfileMeta::new(String::from("trip"), String::from("Trip")));
    config.active_profile_id = String::from("gone");
    let s = BudgetApp::new(config, ProfileData::new(), SharedData::new());
    assert_eq!(s.next_profile_id().unwrap(), "trip");
}

#[test]
fn loading_a_template_replaces_and_never_touches_it() {
    let mut s = session();
    s.add_expense(expense(1, "old"));
    let t = Template::new(
        String::from("Month"),
        vec![expense(100, "rent"), expense(50, "net")],
    );
    let tid = t.id;
    s.shared_data.add_template(t);
    let b = compose_budget(&s.profile_data, &s.shared_data);
    s.budget = b;

    s.load_template(tid);
    let first: Vec<(u64, String)> = s
        .profile_data
        .expenses
        .iter()
        .map(|e| (e.amount, e.description.clone()))
        .collect();
    assert_eq!(
        first,
        vec![(100, String::from("rent")), (50, String::from("net"))]
    );
    let first_ids: Vec<u128> = s.profile_data.expenses.iter().map(|e| e.id).collect();

    // The template is intact, and loading again yields structurally equal
    // expenses under fresh identifiers.
    assert_eq!(s.shared_data.templates.len(), 1);
    assert_eq!(s.shared_data.templates[0].expenses.len(), 2);
    s.load_template(tid);
    let second: Vec<(u64, String)> = s
        .profile_data
        .expenses
        .iter()
        .map(|e| (e.amount, e.description.clone()))
        .collect();
    assert_eq!(first, second);
    let second_ids: Vec<u128> = s.profile_data.expenses.iter().map(|e| e.id).collect();
    assert!(first_ids.iter().all(|id| !second_ids.contains(id)));
}

#[test]
fn appending_a_template_keeps_existing_expenses() {
    let mut s = session();
    s.add_expense(expense(1, "kept"));
    let t = Template::new(String::from("Extra"), vec![expense(9, "added")]);
    let tid = t.id;
    s.shared_data.add_template(t);
    let b = compose_budget(&s.profile_data, &s.shared_data);
    s.budget = b;

    s.append_template(tid);
    assert_eq!(s.profile_data.expenses.len(), 2);
    assert_eq!(s.profile_data.expenses[0].description, "kept");
    assert_eq!(s.profile_data.expenses[1].description, "added");
}

#[test]
fn saving_a_template_snapshots_the_ledger() {
    let mut s = session();
    s.add_expense(expense(77, "snap"));
    s.save_template(String::from("Now"));
    assert_eq!(s.shared_data.templates.len(), 1);
    assert_eq!(s.shared_data.templates[0].name, "Now");
    assert_eq!(s.shared_data.templates[0].expenses.len(), 1);
    assert_eq!(
        s.shared_data.templates[0].expenses[0].id,
        s.profile_data.expenses[0].id
    );
}

#[test]
fn presets_instantiate_into_the_ledger_with_todays_date() {
    let mut s = session();
    let p = ExpensePreset::new(
        String::from("Gym"),
        3000,
        String::from("Healthcare"),
        String::from("membership"),
    );
    let pid = p.id;
    s.add_preset(p);
    s.add_preset_to_expenses(pid);
    assert_eq!(s.profile_data.expenses.len(), 1);
    let e = &s.profile_data.expenses[0];
    assert_eq!(e.amount, 3000);
    assert_eq!(e.category, "Healthcare");
    assert!(e.active);

    s.add_preset_to_expenses(pid ^ 1);
    assert_eq!(s.profile_data.expenses.len(), 1);
}

#[test]
fn an_expense_can_become_a_preset() {
    let mut s = session();
    s.add_expense(expense(450, "coffee beans"));
    let id = s.profile_data.expenses[0].id;
    s.create_preset_from_expense(id, String::from("Beans"));
    assert_eq!(s.shared_data.presets.len(), 1);
    assert_eq!(s.shared_data.presets[0].name, "Beans");
    assert_eq!(s.shared_data.presets[0].amount, 450);
    assert_eq!(s.shared_data.presets[0].default_day, None);
}

#[test]
fn forms_track_their_open_state() {
    let mut m = CategoryManager::new();
    assert!(!m.is_open);
    m.open();
    assert!(m.is_open);
    m.close();
    assert!(!m.is_open);

    let mut p = AddCategoryPopup::new();
    p.open();
    assert!(p.is_open);
    p.close();
    assert!(!p.is_open);

    let mut pm = ProfileManager::new();
    pm.open();
    assert!(pm.is_open);
    pm.close();
    assert!(!pm.is_open);

    let mut sel = ProfileSelector::new();
    assert!(!sel.is_popup_open());
    sel.toggle_popup();
    assert!(sel.is_popup_open());
    sel.close_popup();
    assert!(!sel.is_popup_open());
}

#[test]
fn the_income_form_prefills_the_current_amount() {
    let mut f = IncomeForm::new();
    f.open(123_456);
    assert!(f.is_open);
    assert_eq!(f.amount, "1234.56");
    f.close();
    assert!(!f.is_open);
    f.open(0);
    assert_eq!(f.amount, "");
}
