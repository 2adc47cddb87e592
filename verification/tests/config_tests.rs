use budgetbot::config::{AppConfig, ProfileMeta};

fn config_with(ids: &[(&str, &str)], active: &str) -> AppConfig {
    let mut c = AppConfig {
        active_profile_id: String::from(active),
        profiles: Vec::new(),
    };
    for (id, name) in ids {
        c.add_profile(ProfileMeta::new(String::from(*id), String::from(*name)));
    }
    c
}

#[test]
fn the_default_config_holds_one_main_profile() {
    let c = AppConfig::new_default();
    assert_eq!(c.active_profile_id, "main");
    assert_eq!(c.profiles.len(), 1);
    assert_eq!(c.profiles[0].id, "main");
    assert_eq!(c.profiles[0].name, "Main Budget");
}

#[test]
fn slugs_are_lowercased_dashed_and_trimmed() {
    let c = config_with(&[("main", "Main Budget")], "main");
    assert_eq!(c.generate_profile_id("Vacation"), "vacation");
    assert_eq!(c.generate_profile_id("  Ha Ha!!  "), "ha-ha");
    assert_eq!(c.generate_profile_id("Road Trip 2024"), "road-trip-2024");
}

#[test]
fn an_empty_slug_falls_back_to_profile() {
    let c = config_with(&[("main", "Main Budget")], "main");
    assert_eq!(c.generate_profile_id("!!!"), "profile");
    assert_eq!(c.generate_profile_id(""), "profile");
}

#[test]
fn taken_slugs_get_the_first_free_numeric_suffix() {
    let c = config_with(
        &[("main", "Main Budget"), ("vacation", "Vacation")],
        "main",
    );
    assert_eq!(c.generate_profile_id("Vacation"), "vacation-1");
    let c2 = config_with(
        &[
            ("main", "Main Budget"),
            ("vacation", "Vacation"),
            ("vacation-1", "Vacation"),
        ],
        "main",
    );
    assert_eq!(c2.generate_profile_id("Vacation"), "vacation-2");
}

#[test]
fn the_fallback_slug_also_gets_suffixes() {
    let c = config_with(&[("profile", "A")], "profile");
    assert_eq!(c.generate_profile_id("***"), "profile-1");
}

#[test]
fn inner_punctuation_becomes_hyphens_without_trimming_them() {
    let c = config_with(&[("main", "Main Budget")], "main");
    assert_eq!(c.generate_profile_id("--a.b--"), "a-b");
}

#[test]
fn the_active_profile_cannot_be_removed() {
    let mut c = config_with(&[("main", "Main Budget"), ("trip", "Trip")], "main");
    assert!(!c.remove_profile("main"));
    assert_eq!(c.profiles.len(), 2);
    assert_eq!(c.active_profile_id, "main");
}

#[test]
fn other_profiles_are_removed_by_id() {
    let mut c = config_with(&[("main", "Main Budget"), ("trip", "Trip")], "main");
    assert!(c.remove_profile("trip"));
    assert_eq!(c.profiles.len(), 1);
    assert!(!c.remove_profile("trip"));
    assert!(!c.remove_profile("never-there"));
}

#[test]
fn renaming_changes_the_display_name_only() {
    let mut c = config_with(&[("main", "Main Budget"), ("trip", "Trip")], "main");
    c.rename_profile("trip", String::from("Summer Trip"));
    assert_eq!(c.profiles[1].id, "trip");
    assert_eq!(c.profiles[1].name, "Summer Trip");
    c.rename_profile("missing", String::from("Nobody"));
    assert_eq!(c.profiles[0].name, "Main Budget");
}

#[test]
fn the_active_profile_is_looked_up_by_id() {
    let c = config_with(&[("main", "Main Budget"), ("trip", "Trip")], "trip");
    let active = c.active_profile().expect("active profile should exist");
    assert_eq!(active.name, "Trip");
    let orphan = config_with(&[("main", "Main Budget")], "gone");
    assert!(orphan.active_profile().is_none());
}
