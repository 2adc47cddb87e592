//! The pure part of the storage layer: file locations, the defaulting
//! rules applied after every read, and the legacy migration.
//!
//! Reading and writing bytes is the application shell's business. The
//! library decides where each entity group lives, what value a missing or
//! unreadable file yields, and what the one-time migration from the old
//! single-file layout writes. The migration is modelled as a function on
//! the file set and proved idempotent.

use vstd::prelude::*;
use crate::budget::{Budget, BudgetV};
use crate::config::{AppConfig, AppConfigV};
use crate::profile::{ProfileData, ProfileDataV};
use crate::shared::{
    default_categories, default_category_colors, ColorEntry, SharedData, SharedDataV,
};
use crate::template::{snapshot_expenses, Template};
use crate::preset::ExpensePreset;

verus! {

/// Relies on `directories::ProjectDirs::from` and `data_dir`: the
/// platform's per-application data directory, when the platform reports
/// one. The result depends on the environment, so nothing is promised of
/// it.
#[verifier::external_body]
pub fn get_data_dir() -> Option<String> {
    directories::ProjectDirs::from("com", "budget", "budget-app").map(
        |dirs| dirs.data_dir().to_string_lossy().into_owned(),
    )
}

/// A path under a directory: the directory, a separator, the relative
/// name.
pub fn join_path(dir: &str, name: &str) -> (r: String)
    ensures
        r@ == dir@ + seq!['/'] + name@,
{
    let mut out = String::from_str(dir);
    out.push('/');
    out.append(name);
    out
}

/// Path of the legacy single-file budget, when the platform reports a
/// data directory.
pub fn get_legacy_data_path() -> (r: Option<String>)
    ensures
        r matches Some(p) ==> exists|d: Seq<char>| p@ == d + seq!['/'] + "budget.json"@,
{
    match get_data_dir() {
        Some(dir) => Some(join_path(dir.as_str(), "budget.json")),
        None => None,
    }
}

/// Path of the configuration file, when the platform reports a data
/// directory.
pub fn get_config_path() -> (r: Option<String>)
    ensures
        r matches Some(p) ==> exists|d: Seq<char>| p@ == d + seq!['/'] + "config.json"@,
{
    match get_data_dir() {
        Some(dir) => Some(join_path(dir.as_str(), "config.json")),
        None => None,
    }
}

/// Path of the directory holding the shared data files, when the platform
/// reports a data directory.
pub fn get_shared_dir() -> (r: Option<String>)
    ensures
        r matches Some(p) ==> exists|d: Seq<char>| p@ == d + seq!['/'] + "shared"@,
{
    match get_data_dir() {
        Some(dir) => Some(join_path(dir.as_str(), "shared")),
        None => None,
    }
}

/// Path of the directory holding one file per profile, when the platform
/// reports a data directory.
pub fn get_profiles_dir() -> (r: Option<String>)
    ensures
        r matches Some(p) ==> exists|d: Seq<char>| p@ == d + seq!['/'] + "profiles"@,
{
    match get_data_dir() {
        Some(dir) => Some(join_path(dir.as_str(), "profiles")),
        None => None,
    }
}

/// File name of one profile's data: its id with the `.json` suffix.
pub fn profile_file_name(profile_id: &str) -> (r: String)
    ensures
        r@ == profile_id@ + ".json"@,
{
    let mut out = String::from_str(profile_id);
    out.append(".json");
    out
}

/// Path of one profile's data file, when the platform reports a data
/// directory.
pub fn get_profile_path(profile_id: &str) -> (r: Option<String>)
    ensures
        r matches Some(p) ==> exists|d: Seq<char>|
            p@ == d + seq!['/'] + "profiles"@ + seq!['/'] + profile_id@ + ".json"@,
{
    match get_profiles_dir() {
        Some(dir) => {
            let name = profile_file_name(profile_id);
            let r = join_path(dir.as_str(), name.as_str());
            proof {
                let d = choose|d: Seq<char>| dir@ == d + seq!['/'] + "profiles"@;
                assert(r@ =~= d + seq!['/'] + "profiles"@ + seq!['/'] + profile_id@ + ".json"@);
            }
            Some(r)
        },
        None => None,
    }
}

/// Path of the legacy budget file; kept under its old name for the
/// migration.
pub fn get_data_path() -> (r: Option<String>)
    ensures
        r matches Some(p) ==> exists|d: Seq<char>| p@ == d + seq!['/'] + "budget.json"@,
{
    get_legacy_data_path()
}

/// The configuration a read yields: the parsed value when the file was
/// readable, else the fresh-install default.
pub fn config_or_default(parsed: Option<AppConfig>) -> (r: AppConfig)
    ensures
        parsed matches Some(c) ==> r@ == c@,
        parsed is None ==> {
            &&& r@.active_profile_id == "main"@
            &&& r@.profiles.len() == 1
            &&& r@.profiles[0].id == "main"@
            &&& r@.profiles[0].name == "Main Budget"@
        },
{
    match parsed {
        Some(c) => c,
        None => AppConfig::new_default(),
    }
}

/// The ledger a read yields: the parsed value when the file was readable,
/// else the empty ledger.
pub fn profile_or_default(parsed: Option<ProfileData>) -> (r: ProfileData)
    ensures
        parsed matches Some(p) ==> r@ == p@,
        parsed is None ==> r@.income == 0 && r@.expenses.len() == 0,
{
    match parsed {
        Some(p) => p,
        None => ProfileData::new(),
    }
}

/// The legacy budget a read yields: the parsed value when the file was
/// readable, else the built-in budget.
pub fn budget_or_default(parsed: Option<Budget>) -> (r: Budget)
    ensures
        parsed matches Some(b) ==> r@ == b@,
        parsed is None ==> r@ == crate::budget::spec_default_budget(),
{
    match parsed {
        Some(b) => b,
        None => Budget::new(),
    }
}

/// Assembles the shared data from its three files, each read
/// independently: a section whose file was missing or unreadable takes
/// its own default without failing the others.
pub fn shared_from_parts(
    categories: Option<(Vec<String>, Vec<ColorEntry>)>,
    presets: Option<Vec<ExpensePreset>>,
    templates: Option<Vec<Template>>,
) -> (r: SharedData)
    ensures
        categories matches Some(c) ==> r@.categories == c.0.deep_view() && r@.category_colors
            == c.1.deep_view(),
        categories is None ==> r@.categories == crate::shared::spec_default_category_names()
            && r@.category_colors == crate::shared::spec_default_category_colors(),
        presets matches Some(p) ==> r@.presets == p.deep_view(),
        presets is None ==> r@.presets.len() == 0,
        templates matches Some(t) ==> r@.templates == t.deep_view(),
        templates is None ==> r@.templates.len() == 0,
{
    let (cats, colors) = match categories {
        Some(c) => c,
        None => (default_categories(), default_category_colors()),
    };
    let presets = match presets {
        Some(p) => p,
        None => Vec::new(),
    };
    let templates = match templates {
        Some(t) => t,
        None => Vec::new(),
    };
    SharedData { categories: cats, category_colors: colors, templates, presets }
}

/// Whether the one-time migration has work to do: the legacy file exists
/// and the new configuration file does not.
pub fn needs_migration(legacy_exists: bool, config_exists: bool) -> (r: bool)
    ensures
        r == (legacy_exists && !config_exists),
{
    legacy_exists && !config_exists
}

/// An exact copy of a ledger, written under a new profile id when a
/// profile is duplicated.
pub fn duplicate_profile(source: &ProfileData) -> (r: ProfileData)
    ensures
        r@ == source@,
{
    source.duplicate()
}

/// What the migration writes: the shared files, the `main` profile file,
/// and the fresh configuration, split out of the legacy document.
pub struct MigrationPlan {
    pub shared: SharedData,
    pub profile: ProfileData,
    pub config: AppConfig,
}

/// Splits a legacy budget document: the shared sections on one side, the
/// `main` profile's ledger on the other.
pub fn split_legacy(legacy: Budget) -> (r: (SharedData, ProfileData))
    ensures
        r.0@ == (SharedDataV {
            categories: legacy@.categories,
            category_colors: legacy@.category_colors,
            templates: legacy@.templates,
            presets: legacy@.presets,
        }),
        r.1@ == (ProfileDataV { income: legacy@.income, expenses: legacy@.expenses }),
{
    let shared = SharedData {
        categories: legacy.categories,
        category_colors: legacy.category_colors,
        templates: legacy.templates,
        presets: legacy.presets,
    };
    let profile = ProfileData { income: legacy.income, expenses: legacy.expenses };
    proof {
        assert(shared@ =~= (SharedDataV {
            categories: legacy@.categories,
            category_colors: legacy@.category_colors,
            templates: legacy@.templates,
            presets: legacy@.presets,
        }));
        assert(profile@ =~= (ProfileDataV { income: legacy@.income, expenses: legacy@.expenses }));
    }
    (shared, profile)
}

/// Decides and prepares the migration. `Some` comes back exactly when the
/// legacy file exists and the configuration file does not; the plan then
/// holds the legacy document split into the new files and a fresh default
/// configuration.
pub fn plan_migration(legacy_exists: bool, config_exists: bool, legacy: Budget) -> (r: Option<
    MigrationPlan,
>)
    ensures
        r is Some <==> legacy_exists && !config_exists,
        r matches Some(plan) ==> {
            &&& plan.shared@ == (SharedDataV {
                categories: legacy@.categories,
                category_colors: legacy@.category_colors,
                templates: legacy@.templates,
                presets: legacy@.presets,
            })
            &&& plan.profile@ == (ProfileDataV {
                income: legacy@.income,
                expenses: legacy@.expenses,
            })
            &&& plan.config@.active_profile_id == "main"@
            &&& plan.config@.profiles.len() == 1
            &&& plan.config@.profiles[0].id == "main"@
            &&& plan.config@.profiles[0].name == "Main Budget"@
        },
{
    if !needs_migration(legacy_exists, config_exists) {
        return None;
    }
    let (shared, profile) = split_legacy(legacy);
    Some(MigrationPlan { shared, profile, config: AppConfig::new_default() })
}

/// A model of the data directory: which files exist and what they hold.
#[verifier::ext_equal]
pub ghost struct FsStateV {
    pub legacy: Option<BudgetV>,
    pub legacy_backup: Option<BudgetV>,
    pub config: Option<AppConfigV>,
    pub shared: Option<SharedDataV>,
    pub profiles: Map<Seq<char>, ProfileDataV>,
}

/// What running the migration does to the file set: when the legacy file
/// exists and no configuration file does, the legacy document is split
/// into the shared files and the `main` profile file, the given fresh
/// configuration is written, and the legacy file is renamed to its backup
/// name; otherwise nothing changes.
pub open spec fn spec_migrate(s: FsStateV, cfg: AppConfigV) -> FsStateV {
    match s.legacy {
        Some(b) => if s.config is None {
            FsStateV {
                legacy: None,
                legacy_backup: Some(b),
                config: Some(cfg),
                shared: Some(
                    SharedDataV {
                        categories: b.categories,
                        category_colors: b.category_colors,
                        templates: b.templates,
                        presets: b.presets,
                    },
                ),
                profiles: s.profiles.insert(
                    "main"@,
                    ProfileDataV { income: b.income, expenses: b.expenses },
                ),
            }
        } else {
            s
        },
        None => s,
    }
}

/// Running the migration twice produces the same file set as running it
/// once: the first run leaves a configuration file behind (or never had
/// work to do), so the second run changes nothing, whatever configuration
/// it would have written.
pub proof fn lemma_migration_idempotent(s: FsStateV, cfg1: AppConfigV, cfg2: AppConfigV)
    ensures
        spec_migrate(spec_migrate(s, cfg1), cfg2) == spec_migrate(s, cfg1),
{
}

} // verus!
