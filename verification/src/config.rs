//! The application configuration: the registry of profiles and the pointer
//! to the active one.
//!
//! A profile's id is a filesystem-safe slug generated from its display
//! name; once minted it never changes. The generator is proved to return
//! an id that no existing profile holds.

use vstd::prelude::*;
use crate::text::{
    char_is_alnum, dec_str, is_alnum_char, lemma_dec_str_injective, lemma_dec_str_len, lower_of,
    str_eq, to_lowercase, trim_dashes, trim_while, u64_to_string,
};

verus! {

/// Relies on `chrono::Utc::now` and `DateTime::timestamp`: seconds since
/// the Unix epoch at the moment of the call. The result depends on the
/// clock, so nothing is promised of it.
#[verifier::external_body]
pub fn now_timestamp() -> i64 {
    chrono::Utc::now().timestamp()
}

/// Metadata of one profile: its immutable id, its display name, and the
/// creation time as a Unix timestamp.
pub struct ProfileMeta {
    pub id: String,
    pub name: String,
    pub created_at: i64,
}

/// The mathematical value of a profile's metadata.
#[verifier::ext_equal]
pub ghost struct ProfileMetaV {
    pub id: Seq<char>,
    pub name: Seq<char>,
    pub created_at: i64,
}

impl View for ProfileMeta {
    type V = ProfileMetaV;

    open spec fn view(&self) -> ProfileMetaV {
        ProfileMetaV { id: self.id@, name: self.name@, created_at: self.created_at }
    }
}

impl DeepView for ProfileMeta {
    type V = ProfileMetaV;

    open spec fn deep_view(&self) -> ProfileMetaV {
        self.view()
    }
}

impl ProfileMeta {
    /// Fresh metadata, stamped with the current time.
    pub fn new(id: String, name: String) -> (r: ProfileMeta)
        ensures
            r@.id == id@,
            r@.name == name@,
    {
        ProfileMeta { id, name, created_at: now_timestamp() }
    }

    /// An exact copy.
    pub fn snapshot(&self) -> (r: ProfileMeta)
        ensures
            r@ == self@,
    {
        ProfileMeta { id: self.id.clone(), name: self.name.clone(), created_at: self.created_at }
    }
}

/// The ids of a profile list, in order.
pub open spec fn profile_ids(profiles: Seq<ProfileMetaV>) -> Seq<Seq<char>> {
    profiles.map_values(|p: ProfileMetaV| p.id)
}

/// Relates a profile list to the result of renaming the profile holding
/// the given id: the first match takes the new display name, every other
/// profile is untouched; a list without a match is unchanged. Ids never
/// change.
pub open spec fn rename_profile_result(
    before: Seq<ProfileMetaV>,
    after: Seq<ProfileMetaV>,
    id: Seq<char>,
    name: Seq<char>,
) -> bool {
    if forall|j: int| 0 <= j < before.len() ==> before[j].id != id {
        after == before
    } else {
        exists|i: int|
            {
                &&& 0 <= i < before.len()
                &&& #[trigger] before[i].id == id
                &&& (forall|j: int| 0 <= j < i ==> before[j].id != id)
                &&& after == before.update(i, ProfileMetaV { name, ..before[i] })
            }
    }
}

/// The registry of profiles and the id of the active one.
pub struct AppConfig {
    pub active_profile_id: String,
    pub profiles: Vec<ProfileMeta>,
}

/// The mathematical value of the configuration.
#[verifier::ext_equal]
pub ghost struct AppConfigV {
    pub active_profile_id: Seq<char>,
    pub profiles: Seq<ProfileMetaV>,
}

impl View for AppConfig {
    type V = AppConfigV;

    open spec fn view(&self) -> AppConfigV {
        AppConfigV {
            active_profile_id: self.active_profile_id@,
            profiles: self.profiles.deep_view(),
        }
    }
}

impl DeepView for AppConfig {
    type V = AppConfigV;

    open spec fn deep_view(&self) -> AppConfigV {
        self.view()
    }
}

/// Whether some profile of the list holds the given id.
pub fn has_profile_id(profiles: &Vec<ProfileMeta>, id: &str) -> (r: bool)
    ensures
        r == profile_ids(profiles.deep_view()).contains(id@),
{
    let ghost ids = profile_ids(profiles.deep_view());
    let mut i: usize = 0;
    while i < profiles.len()
        invariant
            0 <= i <= profiles.len(),
            ids == profile_ids(profiles.deep_view()),
            ids.len() == profiles.len(),
            forall|j: int| 0 <= j < i ==> ids[j] != id@,
        decreases profiles.len() - i,
    {
        if str_eq(profiles[i].id.as_str(), id) {
            assert(ids[i as int] == id@);
            return true;
        }
        i = i + 1;
    }
    proof {
        assert(forall|j: int| 0 <= j < ids.len() ==> ids[j] != id@);
    }
    false
}

/// The name's characters with everything that is not alphanumeric turned
/// into a hyphen.
pub open spec fn dashify(s: Seq<char>) -> Seq<char> {
    s.map_values(
        |c: char|
            if is_alnum_char(c) {
                c
            } else {
                '-'
            },
    )
}

/// The slug a display name yields before uniqueness is enforced: the
/// lowered name dashified and trimmed of hyphens, or `profile` when
/// nothing remains.
pub open spec fn slug_base_of(lowered: Seq<char>) -> Seq<char> {
    let t = trim_while(dashify(lowered), |c: char| c == '-');
    if t.len() == 0 {
        "profile"@
    } else {
        t
    }
}

/// The candidate id tried at step `k`: the slug itself first, then the
/// slug with `-1`, `-2`, … appended.
pub open spec fn spec_candidate(base: Seq<char>, k: int) -> Seq<char> {
    if k == 0 {
        base
    } else {
        base + seq!['-'] + dec_str(k as nat)
    }
}

proof fn lemma_candidates_distinct(base: Seq<char>, j: int, k: int)
    requires
        0 <= j < k,
    ensures
        spec_candidate(base, j) != spec_candidate(base, k),
{
    lemma_dec_str_len(k as nat);
    if j == 0 {
        assert(spec_candidate(base, k).len() > base.len());
    } else {
        lemma_dec_str_len(j as nat);
        if spec_candidate(base, j) == spec_candidate(base, k) {
            let a = dec_str(j as nat);
            let b = dec_str(k as nat);
            assert(spec_candidate(base, j).len() == base.len() + 1 + a.len());
            assert(spec_candidate(base, k).len() == base.len() + 1 + b.len());
            assert(a.len() == b.len());
            assert(a =~= b) by {
                assert(forall|i: int|
                    0 <= i < a.len() ==> a[i] == spec_candidate(base, j)[base.len() + 1 + i]);
                assert(forall|i: int|
                    0 <= i < b.len() ==> b[i] == spec_candidate(base, k)[base.len() + 1 + i]);
            }
            lemma_dec_str_injective(j as nat, k as nat);
        }
    }
}

/// The slug of a display name, before uniqueness is enforced.
fn slug_base(name: &str) -> (r: String)
    ensures
        r@ == slug_base_of(lower_of(name@)),
{
    let lowered = to_lowercase(name);
    let low = lowered.as_str();
    let n = low.unicode_len();
    let mut dashed = String::new();
    let mut i: usize = 0;
    while i < n
        invariant
            0 <= i <= n,
            n == low@.len(),
            low@ == lower_of(name@),
            dashed@ =~= dashify(low@.take(i as int)),
        decreases n - i,
    {
        let ghost prev = dashed@;
        let c = low.get_char(i);
        if char_is_alnum(c) {
            dashed.push(c);
        } else {
            dashed.push('-');
        }
        proof {
            assert(low@.take(i + 1int) =~= low@.take(i as int).push(low@[i as int]));
            assert(dashify(low@.take(i + 1int)) =~= dashify(low@.take(i as int)).push(
                if is_alnum_char(low@[i as int]) {
                    low@[i as int]
                } else {
                    '-'
                },
            ));
        }
        i = i + 1;
    }
    proof {
        assert(low@.take(n as int) =~= low@);
    }
    let t = trim_dashes(dashed.as_str());
    if t.unicode_len() == 0 {
        String::from_str("profile")
    } else {
        t
    }
}

impl Default for AppConfig {
    /// The fresh-install configuration.
    fn default() -> (r: AppConfig)
        ensures
            r@.active_profile_id == "main"@,
            r@.profiles.len() == 1,
            r@.profiles[0].id == "main"@,
            r@.profiles[0].name == "Main Budget"@,
    {
        AppConfig::new_default()
    }
}

impl AppConfig {
    /// The configuration of a fresh install: one profile with id `main`
    /// named `Main Budget`, marked active.
    pub fn new_default() -> (r: AppConfig)
        ensures
            r@.active_profile_id == "main"@,
            r@.profiles.len() == 1,
            r@.profiles[0].id == "main"@,
            r@.profiles[0].name == "Main Budget"@,
    {
        let meta = ProfileMeta::new(String::from_str("main"), String::from_str("Main Budget"));
        let mut profiles: Vec<ProfileMeta> = Vec::new();
        profiles.push(meta);
        AppConfig { active_profile_id: String::from_str("main"), profiles }
    }

    /// Metadata of the active profile, when the registry holds its id.
    pub fn active_profile(&self) -> (r: Option<&ProfileMeta>)
        ensures
            r matches Some(p) ==> exists|i: int|
                {
                    &&& 0 <= i < self@.profiles.len()
                    &&& #[trigger] self@.profiles[i].id == self@.active_profile_id
                    &&& (forall|j: int|
                        0 <= j < i ==> self@.profiles[j].id != self@.active_profile_id)
                    &&& p@ == self@.profiles[i]
                },
            r is None ==> forall|j: int|
                0 <= j < self@.profiles.len() ==> self@.profiles[j].id
                    != self@.active_profile_id,
    {
        let mut i: usize = 0;
        while i < self.profiles.len()
            invariant
                0 <= i <= self.profiles.len(),
                forall|j: int| 0 <= j < i ==> self@.profiles[j].id != self@.active_profile_id,
            decreases self.profiles.len() - i,
        {
            if str_eq(self.profiles[i].id.as_str(), self.active_profile_id.as_str()) {
                proof {
                    assert(self@.profiles[i as int].id == self@.active_profile_id);
                }
                return Some(&self.profiles[i]);
            }
            i = i + 1;
        }
        None
    }

    /// Appends a profile to the registry.
    pub fn add_profile(&mut self, meta: ProfileMeta)
        ensures
            final(self)@.active_profile_id == old(self)@.active_profile_id,
            final(self)@.profiles == old(self)@.profiles.push(meta@),
    {
        let ghost prev = self.profiles.deep_view();
        let ghost mv = meta@;
        self.profiles.push(meta);
        proof {
            assert(self.profiles.deep_view() =~= prev.push(mv));
        }
    }

    /// Removes a profile by id. The active profile is never removed: the
    /// call then returns false and changes nothing. Otherwise every entry
    /// holding the id goes, and the result tells whether any did.
    pub fn remove_profile(&mut self, id: &str) -> (r: bool)
        ensures
            final(self)@.active_profile_id == old(self)@.active_profile_id,
            id@ == old(self)@.active_profile_id ==> !r && final(self)@ == old(self)@,
            id@ != old(self)@.active_profile_id ==> {
                &&& final(self)@.profiles == old(self)@.profiles.filter(
                    |p: ProfileMetaV| p.id != id@,
                )
                &&& r == profile_ids(old(self)@.profiles).contains(id@)
            },
    {
        if str_eq(id, self.active_profile_id.as_str()) {
            proof {
                assert(final(self)@ =~= old(self)@);
            }
            return false;
        }
        let ghost all = self.profiles.deep_view();
        let ghost pred = |p: ProfileMetaV| p.id != id@;
        let mut kept: Vec<ProfileMeta> = Vec::new();
        let mut found = false;
        let mut i: usize = 0;
        while i < self.profiles.len()
            invariant
                0 <= i <= self.profiles.len(),
                all == self.profiles.deep_view(),
                all.len() == self.profiles.len(),
                pred == (|p: ProfileMetaV| p.id != id@),
                kept.deep_view() =~= all.take(i as int).filter(pred),
                found == exists|j: int| 0 <= j < i && all[j].id == id@,
            decreases self.profiles.len() - i,
        {
            proof {
                reveal(Seq::filter);
                assert(all.take(i + 1int).drop_last() =~= all.take(i as int));
                assert(all.take(i + 1int).last() == all[i as int]);
            }
            let ghost prev = kept.deep_view();
            if str_eq(self.profiles[i].id.as_str(), id) {
                found = true;
                assert(all[i as int].id == id@);
            } else {
                kept.push(self.profiles[i].snapshot());
                proof {
                    assert(kept.deep_view() =~= prev.push(all[i as int]));
                }
            }
            i = i + 1;
        }
        proof {
            assert(all.take(self.profiles.len() as int) =~= all);
            if found {
                let j = choose|j: int| 0 <= j < all.len() && all[j].id == id@;
                assert(profile_ids(all)[j] == id@);
            }
            if profile_ids(all).contains(id@) {
                let j = choose|j: int| 0 <= j < profile_ids(all).len() && profile_ids(all)[j]
                    == id@;
                assert(all[j].id == id@);
            }
        }
        self.profiles = kept;
        found
    }

    /// Renames the first profile holding the given id; absence is a no-op.
    /// The id itself never changes.
    pub fn rename_profile(&mut self, id: &str, new_name: String)
        ensures
            final(self)@.active_profile_id == old(self)@.active_profile_id,
            rename_profile_result(old(self)@.profiles, final(self)@.profiles, id@, new_name@),
    {
        let ghost before = self.profiles.deep_view();
        let mut i: usize = 0;
        while i < self.profiles.len()
            invariant
                0 <= i <= self.profiles.len(),
                before == old(self).profiles.deep_view(),
                before == self.profiles.deep_view(),
                before.len() == self.profiles.len(),
                self.active_profile_id@ == old(self).active_profile_id@,
                forall|j: int| 0 <= j < i ==> before[j].id != id@,
            decreases self.profiles.len() - i,
        {
            if str_eq(self.profiles[i].id.as_str(), id) {
                proof {
                    assert(before[i as int].id == id@);
                }
                let p = self.profiles.remove(i);
                let renamed = ProfileMeta { id: p.id, name: new_name, created_at: p.created_at };
                self.profiles.insert(i, renamed);
                proof {
                    assert(self.profiles.deep_view() =~= before.update(
                        i as int,
                        ProfileMetaV { name: new_name@, ..before[i as int] },
                    ));
                }
                return ;
            }
            i = i + 1;
        }
        proof {
            assert(final(self)@ =~= old(self)@);
        }
    }

    /// Generates a profile id that no existing profile holds: the slug of
    /// the name when it is free, else the slug with the first free numeric
    /// suffix.
    pub fn generate_profile_id(&self, name: &str) -> (r: String)
        ensures
            !profile_ids(self@.profiles).contains(r@),
            exists|k: int|
                {
                    &&& 0 <= k
                    &&& r@ == #[trigger] spec_candidate(slug_base_of(lower_of(name@)), k)
                    &&& (forall|j: int|
                        0 <= j < k ==> profile_ids(self@.profiles).contains(
                            spec_candidate(slug_base_of(lower_of(name@)), j),
                        ))
                },
    {
        let ghost ids = profile_ids(self@.profiles);
        let base = slug_base(name);
        if !has_profile_id(&self.profiles, base.as_str()) {
            proof {
                assert(base@ == spec_candidate(base@, 0));
            }
            return base;
        }
        let n: u64 = self.profiles.len() as u64;
        let mut k: u64 = 0;
        while k < n
            invariant
                0 <= k <= n,
                n == self.profiles.len(),
                ids == profile_ids(self@.profiles),
                ids.len() == n,
                base@ == slug_base_of(lower_of(name@)),
                forall|j: int| 0 <= j <= k ==> ids.contains(#[trigger] spec_candidate(base@, j)),
            decreases n - k,
        {
            let mut candidate = base.clone();
            candidate.push('-');
            let num = u64_to_string(k + 1);
            candidate.append(num.as_str());
            proof {
                assert(candidate@ =~= spec_candidate(base@, k + 1int));
            }
            if !has_profile_id(&self.profiles, candidate.as_str()) {
                return candidate;
            }
            k = k + 1;
        }
        proof {
            let cands = Seq::new((n + 1) as nat, |j: int| spec_candidate(base@, j));
            assert forall|j1: int, j2: int|
                0 <= j1 < cands.len() && 0 <= j2 < cands.len() && j1 != j2 implies cands[j1]
                != cands[j2] by {
                if j1 < j2 {
                    lemma_candidates_distinct(base@, j1, j2);
                } else {
                    lemma_candidates_distinct(base@, j2, j1);
                }
            }
            assert(cands.no_duplicates());
            cands.unique_seq_to_set();
            assert forall|x: Seq<char>| cands.to_set().contains(x) implies ids.to_set().contains(
                x,
            ) by {
                let j = choose|j: int| 0 <= j < cands.len() && cands[j] == x;
                assert(ids.contains(spec_candidate(base@, j)));
            }
            assert(cands.to_set().subset_of(ids.to_set()));
            ids.lemma_cardinality_of_set();
            vstd::set_lib::lemma_len_subset(cands.to_set(), ids.to_set());
            assert(false);
        }
        base
    }
}

} // verus!
