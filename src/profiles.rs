//! The profile store: named settings bundles, one per name, and the name of
//! the current one.
//!
//! Persistence is the daemon's part: it writes a profile's file before
//! calling [`ProfileManager::save_profile`], and removes it after a
//! successful [`ProfileManager::delete_profile`].

use vstd::prelude::*;
use vstd::string::*;

use crate::error::ArmouryError;
use crate::text::str_equal;
use crate::types::default_rgb_settings;
use crate::types::BatterySettings;
use crate::types::FanMode;
use crate::types::GpuMode;
use crate::types::PerformanceMode;
use crate::types::Profile;
use crate::types::RgbColor;
use crate::types::RgbEffect;
use crate::types::RgbSettings;

verus! {

/// Whether a profile of this name is in the sequence.
pub open spec fn has_name(ps: Seq<Profile>, n: Seq<char>) -> bool {
    exists|i: int| 0 <= i < ps.len() && ps[i].name@ == n
}

/// No two profiles share a name.
pub open spec fn names_unique(ps: Seq<Profile>) -> bool {
    forall|i: int, j: int|
        0 <= i < ps.len() && 0 <= j < ps.len() && ps[i].name@ == ps[j].name@ ==> i == j
}

/// The profiles of a sequence with unique names, by name.
pub open spec fn profile_map(ps: Seq<Profile>) -> Map<Seq<char>, Profile> {
    Map::new(
        |n: Seq<char>| has_name(ps, n),
        |n: Seq<char>| ps[choose|i: int| 0 <= i < ps.len() && ps[i].name@ == n],
    )
}

/// The profiles that a sequence loads into an empty store, each replacing any
/// earlier one of the same name.
pub open spec fn load_map(ps: Seq<Profile>) -> Map<Seq<char>, Profile>
    decreases ps.len(),
{
    if ps.len() == 0 {
        Map::empty()
    } else {
        load_map(ps.drop_last()).insert(ps.last().name@, ps.last())
    }
}

/// The names of the four built-in profiles, which cannot be deleted.
pub open spec fn is_builtin_name(n: Seq<char>) -> bool {
    n == "Gaming"@ || n == "Work"@ || n == "Silent"@ || n == "Balanced"@
}

/// A built-in profile: automatic fans, no fan curve, and these settings.
pub open spec fn is_builtin(
    p: Profile,
    name: Seq<char>,
    perf: PerformanceMode,
    gpu: GpuMode,
    rgb: RgbSettings,
    charge_limit: u8,
) -> bool {
    &&& p.name@ == name
    &&& p.performance_mode == perf
    &&& p.gpu_mode == gpu
    &&& p.fan_mode == FanMode::Auto
    &&& p.fan_curve is None
    &&& p.rgb_settings == rgb
    &&& p.battery_settings.charge_limit == charge_limit
}

/// Gaming: Turbo, dedicated GPU, rainbow lighting, full charge.
pub open spec fn is_gaming_profile(p: Profile) -> bool {
    is_builtin(
        p,
        "Gaming"@,
        PerformanceMode::Turbo,
        GpuMode::Dedicated,
        RgbSettings {
            effect: RgbEffect::Rainbow,
            color: RgbColor { r: 255, g: 0, b: 0 },
            color_secondary: None,
            brightness: 100,
            speed: 75,
        },
        100,
    )
}

/// Work: Balanced, integrated GPU, static white at half brightness, 80% charge.
pub open spec fn is_work_profile(p: Profile) -> bool {
    is_builtin(
        p,
        "Work"@,
        PerformanceMode::Balanced,
        GpuMode::Integrated,
        RgbSettings {
            effect: RgbEffect::Static,
            color: RgbColor { r: 255, g: 255, b: 255 },
            color_secondary: None,
            brightness: 50,
            speed: 50,
        },
        80,
    )
}

/// Silent: Silent mode, integrated GPU, lighting off, 60% charge.
pub open spec fn is_silent_profile(p: Profile) -> bool {
    is_builtin(
        p,
        "Silent"@,
        PerformanceMode::Silent,
        GpuMode::Integrated,
        RgbSettings {
            effect: RgbEffect::Off,
            color: RgbColor { r: 0, g: 0, b: 0 },
            color_secondary: None,
            brightness: 0,
            speed: 0,
        },
        60,
    )
}

/// Balanced: Balanced mode, hybrid GPU, default lighting, full charge.
pub open spec fn is_balanced_profile(p: Profile) -> bool {
    is_builtin(
        p,
        "Balanced"@,
        PerformanceMode::Balanced,
        GpuMode::Hybrid,
        default_rgb_settings(),
        100,
    )
}

/// The store holds exactly the four built-in profiles.
pub open spec fn holds_builtins(m: Map<Seq<char>, Profile>) -> bool {
    &&& forall|n: Seq<char>| #[trigger] m.dom().contains(n) <==> is_builtin_name(n)
    &&& is_gaming_profile(m["Gaming"@])
    &&& is_work_profile(m["Work"@])
    &&& is_silent_profile(m["Silent"@])
    &&& is_balanced_profile(m["Balanced"@])
}

fn builtin_profile(
    name: &str,
    perf: PerformanceMode,
    gpu: GpuMode,
    rgb: RgbSettings,
    charge_limit: u8,
) -> (p: Profile)
    ensures
        is_builtin(p, name@, perf, gpu, rgb, charge_limit),
{
    Profile {
        name: String::from_str(name),
        performance_mode: perf,
        gpu_mode: gpu,
        fan_mode: FanMode::Auto,
        fan_curve: None,
        rgb_settings: rgb,
        battery_settings: BatterySettings { charge_limit },
    }
}

/// The four built-in profiles: Gaming, Work, Silent and Balanced.
pub fn default_profiles() -> (r: Vec<Profile>)
    ensures
        r@.len() == 4,
        is_gaming_profile(r@[0]),
        is_work_profile(r@[1]),
        is_silent_profile(r@[2]),
        is_balanced_profile(r@[3]),
{
    let mut r: Vec<Profile> = Vec::new();
    r.push(
        builtin_profile(
            "Gaming",
            PerformanceMode::Turbo,
            GpuMode::Dedicated,
            RgbSettings {
                effect: RgbEffect::Rainbow,
                color: RgbColor::new(255, 0, 0),
                color_secondary: None,
                brightness: 100,
                speed: 75,
            },
            100,
        ),
    );
    r.push(
        builtin_profile(
            "Work",
            PerformanceMode::Balanced,
            GpuMode::Integrated,
            RgbSettings {
                effect: RgbEffect::Static,
                color: RgbColor::new(255, 255, 255),
                color_secondary: None,
                brightness: 50,
                speed: 50,
            },
            80,
        ),
    );
    r.push(
        builtin_profile(
            "Silent",
            PerformanceMode::Silent,
            GpuMode::Integrated,
            RgbSettings {
                effect: RgbEffect::Off,
                color: RgbColor::default(),
                color_secondary: None,
                brightness: 0,
                speed: 0,
            },
            60,
        ),
    );
    r.push(
        builtin_profile(
            "Balanced",
            PerformanceMode::Balanced,
            GpuMode::Hybrid,
            RgbSettings::default(),
            100,
        ),
    );
    r
}

proof fn lemma_map_at(ps: Seq<Profile>, i: int)
    requires
        names_unique(ps),
        0 <= i < ps.len(),
    ensures
        profile_map(ps).dom().contains(ps[i].name@),
        profile_map(ps)[ps[i].name@] == ps[i],
{
    let n = ps[i].name@;
    assert(has_name(ps, n));
    let k = choose|k: int| 0 <= k < ps.len() && ps[k].name@ == n;
    assert(k == i);
}

proof fn lemma_update(ps: Seq<Profile>, i: int, p: Profile)
    requires
        names_unique(ps),
        0 <= i < ps.len(),
        ps[i].name@ == p.name@,
    ensures
        names_unique(ps.update(i, p)),
        profile_map(ps.update(i, p)) =~= profile_map(ps).insert(p.name@, p),
{
    let qs = ps.update(i, p);
    assert(names_unique(qs));
    assert forall|n: Seq<char>| has_name(qs, n) <==> (has_name(ps, n) || n == p.name@) by {
        if has_name(ps, n) {
            let k = choose|k: int| 0 <= k < ps.len() && ps[k].name@ == n;
            assert(qs[k].name@ == n);
        }
        if n == p.name@ {
            assert(qs[i].name@ == n);
        }
        if has_name(qs, n) {
            let k = choose|k: int| 0 <= k < qs.len() && qs[k].name@ == n;
            assert(ps[k].name@ == n);
        }
    }
    assert forall|n: Seq<char>| #[trigger] profile_map(qs).dom().contains(n) implies profile_map(qs)[n]
        == profile_map(ps).insert(p.name@, p)[n] by {
        let k = choose|k: int| 0 <= k < qs.len() && qs[k].name@ == n;
        lemma_map_at(qs, k);
        if k != i {
            lemma_map_at(ps, k);
        }
    }
}

proof fn lemma_push(ps: Seq<Profile>, p: Profile)
    requires
        names_unique(ps),
        !has_name(ps, p.name@),
    ensures
        names_unique(ps.push(p)),
        profile_map(ps.push(p)) =~= profile_map(ps).insert(p.name@, p),
{
    let qs = ps.push(p);
    assert forall|i: int, j: int|
        0 <= i < qs.len() && 0 <= j < qs.len() && qs[i].name@ == qs[j].name@ implies i == j by {
        if i < ps.len() && j == ps.len() {
            assert(ps[i].name@ == p.name@);
        }
        if j < ps.len() && i == ps.len() {
            assert(ps[j].name@ == p.name@);
        }
    }
    assert forall|n: Seq<char>| has_name(qs, n) <==> (has_name(ps, n) || n == p.name@) by {
        if has_name(ps, n) {
            let k = choose|k: int| 0 <= k < ps.len() && ps[k].name@ == n;
            assert(qs[k].name@ == n);
        }
        if n == p.name@ {
            assert(qs[ps.len() as int].name@ == n);
        }
        if has_name(qs, n) {
            let k = choose|k: int| 0 <= k < qs.len() && qs[k].name@ == n;
            if k < ps.len() {
                assert(ps[k].name@ == n);
            }
        }
    }
    assert forall|n: Seq<char>| #[trigger] profile_map(qs).dom().contains(n) implies profile_map(qs)[n]
        == profile_map(ps).insert(p.name@, p)[n] by {
        let k = choose|k: int| 0 <= k < qs.len() && qs[k].name@ == n;
        lemma_map_at(qs, k);
        if k < ps.len() {
            lemma_map_at(ps, k);
        }
    }
}

proof fn lemma_remove(ps: Seq<Profile>, i: int)
    requires
        names_unique(ps),
        0 <= i < ps.len(),
    ensures
        names_unique(ps.remove(i)),
        profile_map(ps.remove(i)) =~= profile_map(ps).remove(ps[i].name@),
{
    let qs = ps.remove(i);
    let gone = ps[i].name@;
    assert forall|a: int, b: int|
        0 <= a < qs.len() && 0 <= b < qs.len() && qs[a].name@ == qs[b].name@ implies a == b by {
        let a2 = if a < i { a } else { a + 1 };
        let b2 = if b < i { b } else { b + 1 };
        assert(qs[a] == ps[a2]);
        assert(qs[b] == ps[b2]);
    }
    assert forall|n: Seq<char>| has_name(qs, n) <==> (has_name(ps, n) && n != gone) by {
        if has_name(ps, n) && n != gone {
            let k = choose|k: int| 0 <= k < ps.len() && ps[k].name@ == n;
            if k < i {
                assert(qs[k].name@ == n);
            } else {
                assert(k != i);
                assert(qs[k - 1].name@ == n);
            }
        }
        if has_name(qs, n) {
            let k = choose|k: int| 0 <= k < qs.len() && qs[k].name@ == n;
            let k2 = if k < i { k } else { k + 1 };
            assert(ps[k2].name@ == n);
            assert(k2 != i);
        }
    }
    assert forall|n: Seq<char>| #[trigger] profile_map(qs).dom().contains(n) implies profile_map(qs)[n]
        == profile_map(ps).remove(gone)[n] by {
        let k = choose|k: int| 0 <= k < qs.len() && qs[k].name@ == n;
        lemma_map_at(qs, k);
        let k2 = if k < i { k } else { k + 1 };
        assert(qs[k] == ps[k2]);
        lemma_map_at(ps, k2);
    }
}

/// Named profiles, one per name, and the name of the current one.
pub struct ProfileManager {
    profiles_dir: String,
    profiles: Vec<Profile>,
    current_profile: String,
}

impl ProfileManager {
    /// The profiles, by name.
    pub closed spec fn profiles_view(&self) -> Map<Seq<char>, Profile> {
        profile_map(self.profiles@)
    }

    /// Directory of the profile files, one `<name>.json` per profile.
    pub closed spec fn dir(&self) -> Seq<char> {
        self.profiles_dir@
    }

    /// The name of the current profile.
    pub closed spec fn current_name(&self) -> Seq<char> {
        self.current_profile@
    }

    /// The store is well formed: no two profiles share a name.
    pub closed spec fn wf(&self) -> bool {
        names_unique(self.profiles@)
    }

    fn position(&self, name: &str) -> (r: Option<usize>)
        ensures
            match r {
                Some(i) => i < self.profiles@.len() && self.profiles@[i as int].name@ == name@,
                None => !has_name(self.profiles@, name@),
            },
    {
        let mut i: usize = 0;
        while i < self.profiles.len()
            invariant
                i <= self.profiles@.len(),
                forall|k: int| 0 <= k < i ==> self.profiles@[k].name@ != name@,
            decreases self.profiles@.len() - i,
        {
            if str_equal(self.profiles[i].name.as_str(), name) {
                return Some(i);
            }
            i = i + 1;
        }
        None
    }

    /// A store that loads `loaded` (the profiles read from disk; a later one
    /// replaces an earlier one of the same name), or, when that is empty,
    /// holds the four built-in profiles. The current profile is
    /// `default_profile`.
    pub fn new(profiles_dir: String, default_profile: String, loaded: Vec<Profile>) -> (r: Self)
        ensures
            r.wf(),
            r.dir() == profiles_dir@,
            r.current_name() == default_profile@,
            loaded@.len() > 0 ==> r.profiles_view() == load_map(loaded@),
            loaded@.len() == 0 ==> holds_builtins(r.profiles_view()),
    {
        let mut manager = ProfileManager {
            profiles_dir,
            profiles: Vec::new(),
            current_profile: default_profile,
        };
        proof {
            assert(manager.profiles_view() =~= Map::empty());
        }
        let ghost all = loaded@;
        let mut rest = loaded;
        let ghost mut k: int = 0;
        while rest.len() > 0
            invariant
                manager.wf(),
                manager.dir() == profiles_dir@,
                manager.current_name() == default_profile@,
                0 <= k <= all.len(),
                rest@ == all.subrange(k, all.len() as int),
                manager.profiles_view() == load_map(all.subrange(0, k)),
            decreases rest@.len(),
        {
            proof {
                assert(rest@.len() == all.len() - k);
            }
            let p = rest.remove(0);
            proof {
                assert(p == all[k]);
                let next = all.subrange(0, k + 1);
                assert(next.drop_last() =~= all.subrange(0, k));
                assert(next.last() == p);
                assert(rest@ =~= all.subrange(k + 1, all.len() as int));
            }
            manager.save_profile(p);
            proof {
                k = k + 1;
            }
        }
        proof {
            assert(all.subrange(0, k) =~= all);
            if all.len() == 0 && manager.profiles@.len() > 0 {
                assert(has_name(manager.profiles@, manager.profiles@[0].name@));
                assert(manager.profiles_view().dom().contains(manager.profiles@[0].name@));
            }
        }
        if manager.profiles.len() == 0 {
            proof {
                if all.len() > 0 {
                    assert(load_map(all).dom().contains(all.last().name@));
                    assert(manager.profiles_view().dom().contains(all.last().name@));
                }
            }
            manager.create_default_profiles();
        }
        proof {
            assert(all.subrange(0, k) =~= all);
            if all.len() > 0 {
                assert(load_map(all).dom().contains(all.last().name@));
            }
        }
        manager
    }

    /// Adds the four built-in profiles to an empty store.
    fn create_default_profiles(&mut self)
        requires
            old(self).wf(),
            old(self).profiles@.len() == 0,
        ensures
            final(self).wf(),
            holds_builtins(final(self).profiles_view()),
            final(self).dir() == old(self).dir(),
            final(self).current_name() == old(self).current_name(),
    {
        let mut defaults = default_profiles();
        let ghost d = defaults@;
        proof {
            assert(self.profiles_view() =~= Map::<Seq<char>, Profile>::empty());
            reveal_strlit("Gaming");
            reveal_strlit("Work");
            reveal_strlit("Silent");
            reveal_strlit("Balanced");
        }
        let balanced = defaults.pop().unwrap();
        let silent = defaults.pop().unwrap();
        let work = defaults.pop().unwrap();
        let gaming = defaults.pop().unwrap();
        proof {
            assert(gaming == d[0] && work == d[1] && silent == d[2] && balanced == d[3]);
        }
        self.save_profile(gaming);
        self.save_profile(work);
        self.save_profile(silent);
        self.save_profile(balanced);
        proof {
            let m = self.profiles_view();
            assert("Gaming"@[0] != "Silent"@[0]);
            assert("Gaming"@ != "Silent"@);
            assert("Gaming"@.len() != "Work"@.len() && "Gaming"@.len() != "Balanced"@.len());
            assert("Work"@.len() != "Silent"@.len() && "Work"@.len() != "Balanced"@.len());
            assert("Silent"@.len() != "Balanced"@.len());
            assert(m == Map::<Seq<char>, Profile>::empty().insert(gaming.name@, gaming).insert(
                work.name@,
                work,
            ).insert(silent.name@, silent).insert(balanced.name@, balanced));
            assert(m["Gaming"@] == gaming);
            assert(m["Work"@] == work);
            assert(m["Silent"@] == silent);
            assert(m["Balanced"@] == balanced);
        }
    }

    /// All profiles, in no particular order.
    pub fn list_profiles(&self) -> (r: Vec<&Profile>)
        requires
            self.wf(),
        ensures
            forall|i: int|
                0 <= i < r@.len() ==> self.profiles_view().dom().contains(#[trigger] r@[i].name@)
                    && self.profiles_view()[r@[i].name@] == *r@[i],
            forall|n: Seq<char>|
                #[trigger] self.profiles_view().dom().contains(n) ==> exists|i: int|
                    0 <= i < r@.len() && r@[i].name@ == n,
            forall|i: int, j: int|
                0 <= i < r@.len() && 0 <= j < r@.len() && r@[i].name@ == r@[j].name@ ==> i == j,
    {
        let mut r: Vec<&Profile> = Vec::new();
        let mut i: usize = 0;
        while i < self.profiles.len()
            invariant
                self.wf(),
                i <= self.profiles@.len(),
                r@.len() == i,
                forall|k: int| 0 <= k < i ==> *r@[k] == self.profiles@[k],
            decreases self.profiles@.len() - i,
        {
            r.push(&self.profiles[i]);
            i = i + 1;
        }
        proof {
            assert forall|k: int| 0 <= k < r@.len() implies self.profiles_view().dom().contains(
                #[trigger] r@[k].name@,
            ) && self.profiles_view()[r@[k].name@] == *r@[k] by {
                lemma_map_at(self.profiles@, k);
            }
            assert forall|n: Seq<char>| #[trigger]
                self.profiles_view().dom().contains(n) implies exists|k: int|
                0 <= k < r@.len() && r@[k].name@ == n by {
                let k = choose|k: int|
                    0 <= k < self.profiles@.len() && self.profiles@[k].name@ == n;
                assert(r@[k].name@ == n);
            }
        }
        r
    }

    /// The profile of this name, if there is one.
    pub fn get_profile(&self, name: &str) -> (r: Option<&Profile>)
        requires
            self.wf(),
        ensures
            r is Some <==> self.profiles_view().dom().contains(name@),
            r is Some ==> *r->0 == self.profiles_view()[name@],
    {
        match self.position(name) {
            Some(i) => {
                proof {
                    lemma_map_at(self.profiles@, i as int);
                }
                Some(&self.profiles[i])
            },
            None => None,
        }
    }

    /// Directory of the profile files.
    pub fn profiles_dir(&self) -> (r: &str)
        ensures
            r@ == self.dir(),
    {
        self.profiles_dir.as_str()
    }

    /// The name of the current profile.
    pub fn current_profile_name(&self) -> (r: &str)
        ensures
            r@ == self.current_name(),
    {
        self.current_profile.as_str()
    }

    /// Makes the named profile the current one. A name that is not in the
    /// store is ignored: nothing changes and no error is reported.
    pub fn set_current_profile(&mut self, name: &str)
        ensures
            final(self).current_name() == if old(self).profiles_view().dom().contains(name@) {
                name@
            } else {
                old(self).current_name()
            },
            final(self).profiles_view() == old(self).profiles_view(),
            final(self).wf() == old(self).wf(),
            final(self).dir() == old(self).dir(),
    {
        if self.position(name).is_some() {
            self.current_profile = String::from_str(name);
        }
    }

    /// Adds a profile, replacing any profile of the same name.
    pub fn save_profile(&mut self, profile: Profile)
        requires
            old(self).wf(),
        ensures
            final(self).wf(),
            final(self).profiles_view() == old(self).profiles_view().insert(
                profile.name@,
                profile,
            ),
            final(self).current_name() == old(self).current_name(),
            final(self).dir() == old(self).dir(),
    {
        match self.position(profile.name.as_str()) {
            Some(i) => {
                proof {
                    lemma_update(self.profiles@, i as int, profile);
                }
                self.profiles.set(i, profile);
            },
            None => {
                proof {
                    lemma_push(self.profiles@, profile);
                }
                self.profiles.push(profile);
            },
        }
    }

    /// Deletes the named profile. The four built-in profiles cannot be
    /// deleted, and a name that is not in the store cannot either: both fail
    /// with `InvalidValue` and leave the store unchanged.
    pub fn delete_profile(&mut self, name: &str) -> (r: Result<(), ArmouryError>)
        requires
            old(self).wf(),
        ensures
            final(self).wf(),
            r is Ok <==> !is_builtin_name(name@) && old(self).profiles_view().dom().contains(name@),
            r is Err ==> r->Err_0 is InvalidValue,
            final(self).profiles_view() == if r is Ok {
                old(self).profiles_view().remove(name@)
            } else {
                old(self).profiles_view()
            },
            final(self).current_name() == old(self).current_name(),
            final(self).dir() == old(self).dir(),
    {
        proof {
            reveal_strlit("Gaming");
            reveal_strlit("Work");
            reveal_strlit("Silent");
            reveal_strlit("Balanced");
        }
        if str_equal(name, "Gaming") || str_equal(name, "Work") || str_equal(name, "Silent")
            || str_equal(name, "Balanced") {
            return Err(ArmouryError::InvalidValue(String::from_str("Cannot delete default profiles")));
        }
        match self.position(name) {
            Some(i) => {
                proof {
                    lemma_remove(self.profiles@, i as int);
                }
                self.profiles.remove(i);
                Ok(())
            },
            None => Err(ArmouryError::InvalidValue(String::from_str("Profile not found"))),
        }
    }
}

impl Default for ProfileManager {
    /// A store of the four built-in profiles under a temporary directory,
    /// with Balanced current; for when the configured store cannot be used.
    fn default() -> (r: Self)
        ensures
            r.wf(),
            r.dir() == "/tmp/asus-armoury/profiles"@,
            r.current_name() == "Balanced"@,
            holds_builtins(r.profiles_view()),
    {
        let mut manager = ProfileManager {
            profiles_dir: String::from_str("/tmp/asus-armoury/profiles"),
            profiles: Vec::new(),
            current_profile: String::from_str("Balanced"),
        };
        manager.create_default_profiles();
        manager
    }
}

} // verus!
