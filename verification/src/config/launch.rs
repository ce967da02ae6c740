//! What a launch derives from the settings: the executable of the selected
//! build, the catalog's entry for it, and the process environment.

use crate::config::wine_sync::sync_env;
use crate::config::Config;
use crate::config::Fsr;
use crate::config::WineSync;
use crate::env_vars::EnvVars;
use crate::text::decimal;
use crate::text::decimal_string;
use crate::text::join;
use crate::wine::find_version;
use crate::wine::is_first_named;
use crate::wine::offers;
use crate::wine::Group;
use crate::wine::Version;
use vstd::prelude::*;
use vstd::string::StringExecFns;

verus! {

/// Where a build keeps its executable when it is laid out the conventional
/// way.
pub open spec fn conventional_executable(builds: Seq<char>, name: Seq<char>) -> Seq<char> {
    builds + "/"@ + name + "/bin/wine"@
}

/// Where a build keeps its executable when it is laid out as a
/// compatibility tool.
pub open spec fn proton_executable(builds: Seq<char>, name: Seq<char>) -> Seq<char> {
    builds + "/"@ + name + "/files/bin/wine"@
}

/// The executable of the selected build, given which of its two candidate
/// locations exist: the conventional one if it exists, else the
/// compatibility-tool one if that exists, else none; and none when no build
/// is selected.
pub open spec fn resolved_executable(
    builds: Seq<char>,
    selected: Option<Seq<char>>,
    conventional_exists: bool,
    proton_exists: bool,
) -> Option<Seq<char>> {
    match selected {
        Some(name) => if conventional_exists {
            Some(conventional_executable(builds, name))
        } else if proton_exists {
            Some(proton_executable(builds, name))
        } else {
            None
        },
        None => None,
    }
}

/// The text of an optional name.
pub open spec fn name_view(name: Option<String>) -> Option<Seq<char>> {
    match name {
        Some(name) => Some(name@),
        None => None,
    }
}

/// The variables that realise the upscaling settings: none when the filter
/// is disabled, whatever the strength.
pub open spec fn fsr_env(enabled: bool, strength: u32) -> Map<Seq<char>, Seq<char>> {
    if enabled {
        Map::<Seq<char>, Seq<char>>::empty().insert("FULLSCREEN_FSR"@, "1"@).insert(
            "FULLSCREEN_FSR_STRENGTH"@,
            decimal(strength as nat),
        )
    } else {
        Map::empty()
    }
}

/// The variables a launch runs with: those of the synchronisation mode,
/// overlaid by those of the upscaling filter, overlaid by the user's own.
pub open spec fn launch_env(
    sync: WineSync,
    fsr: Fsr,
    user: Map<Seq<char>, Seq<char>>,
) -> Map<Seq<char>, Seq<char>> {
    sync_env(sync).union_prefer_right(fsr_env(fsr.enabled, fsr.strength)).union_prefer_right(user)
}

/// Asks the file system whether anything exists at `path`, by
/// `std::path::Path::exists`. Nothing is claimed of the answer: it depends on
/// what is on disk at the moment of the call.
#[verifier::external_body]
fn path_exists(path: &str) -> (found: bool) {
    std::path::Path::new(path).exists()
}

impl Fsr {
    /// The environment variables that realise these upscaling settings.
    pub fn get_env_vars(&self) -> (vars: EnvVars)
        ensures
            vars@ == fsr_env(self.enabled, self.strength),
            !self.enabled ==> vars@ == Map::<Seq<char>, Seq<char>>::empty(),
    {
        let mut vars = EnvVars::new();
        if self.enabled {
            vars.insert(String::from_str("FULLSCREEN_FSR"), String::from_str("1"));
            vars.insert(
                String::from_str("FULLSCREEN_FSR_STRENGTH"),
                decimal_string(self.strength as u64),
            );
        }
        vars
    }
}

impl Config {
    /// The two places where the selected build may keep its executable, the
    /// conventional one first; none when no build is selected.
    pub fn wine_executable_candidates(&self) -> (candidates: Option<(String, String)>)
        ensures
            match candidates {
                Some((conventional, proton)) => self.game.wine.selected matches Some(name)
                    && conventional@ == conventional_executable(self.game.wine.builds@, name@)
                    && proton@ == proton_executable(self.game.wine.builds@, name@),
                None => self.game.wine.selected is None,
            },
    {
        match &self.game.wine.selected {
            Some(selected) => {
                let mut root = join(self.game.wine.builds.as_str(), "/");
                root.append(selected.as_str());
                let conventional = join(root.as_str(), "/bin/wine");
                let proton = join(root.as_str(), "/files/bin/wine");
                Some((conventional, proton))
            },
            None => None,
        }
    }

    /// The executable of the selected build, given which of its two
    /// candidate locations exist.
    pub fn select_wine_executable(&self, conventional_exists: bool, proton_exists: bool) -> (path:
        Option<String>)
        ensures
            name_view(path) == resolved_executable(
                self.game.wine.builds@,
                name_view(self.game.wine.selected),
                conventional_exists,
                proton_exists,
            ),
            self.game.wine.selected is None ==> path is None,
            self.game.wine.selected matches Some(name) ==> (!conventional_exists && proton_exists
                ==> (path matches Some(found) && found@ == proton_executable(
                self.game.wine.builds@,
                name@,
            ) && found@ != conventional_executable(self.game.wine.builds@, name@))),
    {
        proof {
            if self.game.wine.selected is Some {
                lemma_layouts_differ(self.game.wine.builds@, self.game.wine.selected->0@);
            }
        }
        match self.wine_executable_candidates() {
            Some((conventional, proton)) => {
                if conventional_exists {
                    Some(conventional)
                } else if proton_exists {
                    Some(proton)
                } else {
                    None
                }
            },
            None => None,
        }
    }

    /// Looks on disk for the executable of the selected build: the
    /// conventional location is tried first, the compatibility-tool location
    /// only if nothing is there.
    pub fn try_get_wine_executable(&self) -> (path: Option<String>)
        ensures
            exists|conventional_exists: bool, proton_exists: bool|
                name_view(path) == #[trigger] resolved_executable(
                    self.game.wine.builds@,
                    name_view(self.game.wine.selected),
                    conventional_exists,
                    proton_exists,
                ),
            self.game.wine.selected is None ==> path is None,
    {
        match self.wine_executable_candidates() {
            Some((conventional, proton)) => {
                let conventional_exists = path_exists(conventional.as_str());
                if conventional_exists {
                    assert(name_view(Some(conventional)) == resolved_executable(
                        self.game.wine.builds@,
                        name_view(self.game.wine.selected),
                        true,
                        false,
                    ));
                    return Some(conventional);
                }
                let proton_exists = path_exists(proton.as_str());
                self.select_wine_executable(conventional_exists, proton_exists)
            },
            None => {
                None
            },
        }
    }

    /// The catalog's entry for the selected build: the first build of that
    /// name, going through the groups in order. There is none when no build
    /// is selected, when the catalog could not be fetched, and when the
    /// catalog offers no build of that name.
    pub fn try_get_selected_wine_info<E>(&self, catalog: &Result<Vec<Group>, E>) -> (info: Option<
        Version,
    >)
        ensures
            match (self.game.wine.selected, catalog) {
                (Some(name), Ok(groups)) => match info {
                    Some(version) => is_first_named(groups@, name@, version),
                    None => !offers(groups@, name@),
                },
                _ => info is None,
            },
    {
        match &self.game.wine.selected {
            Some(selected) => match catalog {
                Ok(groups) => match find_version(groups, selected) {
                    Some(version) => Some(version.clone()),
                    None => None,
                },
                Err(_) => None,
            },
            None => None,
        }
    }

    /// The environment variables of the configured synchronisation mode.
    pub fn get_wine_sync_env_vars(&self) -> (vars: EnvVars)
        ensures
            vars@ == sync_env(self.game.wine.sync),
    {
        self.game.wine.sync.get_env_vars()
    }

    /// The environment a launch runs with. Where two sources bind the same
    /// name, the later one wins: the user's variables over the upscaling
    /// ones, and those over the synchronisation ones.
    pub fn get_env_vars(&self) -> (vars: EnvVars)
        ensures
            vars@ == launch_env(
                self.game.wine.sync,
                self.game.enhancements.fsr,
                self.game.environment@,
            ),
    {
        let mut vars = self.game.wine.sync.get_env_vars();
        let upscaling = self.game.enhancements.fsr.get_env_vars();
        vars.overlay(&upscaling);
        vars.overlay(&self.game.environment);
        vars
    }
}

/// The two layouts never name the same file: whatever the builds directory
/// and the build are called, the two candidate locations differ.
pub proof fn lemma_layouts_differ(builds: Seq<char>, name: Seq<char>)
    ensures
        conventional_executable(builds, name) != proton_executable(builds, name),
{
    reveal_strlit("/bin/wine");
    reveal_strlit("/files/bin/wine");
    assert(proton_executable(builds, name).len() == builds.len() + "/"@.len() + name.len() + 15);
}

/// A disabled upscaling filter contributes nothing to the launch, whatever
/// its strength: the launch runs with the synchronisation variables overlaid
/// by the user's own.
pub proof fn lemma_disabled_upscaling_adds_nothing(
    sync: WineSync,
    strength: u32,
    user: Map<Seq<char>, Seq<char>>,
)
    ensures
        fsr_env(false, strength) == Map::<Seq<char>, Seq<char>>::empty(),
        launch_env(sync, Fsr { strength, enabled: false }, user) == sync_env(
            sync,
        ).union_prefer_right(user),
{
}

/// Which source a variable of the launch comes from: the user's own
/// variables win over the upscaling ones, and those over the
/// synchronisation ones; no variable comes from anywhere else.
pub proof fn lemma_launch_env_precedence(
    sync: WineSync,
    fsr: Fsr,
    user: Map<Seq<char>, Seq<char>>,
    name: Seq<char>,
)
    ensures
        launch_env(sync, fsr, user).contains_key(name) <==> user.contains_key(name) || fsr_env(
            fsr.enabled,
            fsr.strength,
        ).contains_key(name) || sync_env(sync).contains_key(name),
        user.contains_key(name) ==> launch_env(sync, fsr, user)[name] == user[name],
        !user.contains_key(name) && fsr_env(fsr.enabled, fsr.strength).contains_key(name)
            ==> launch_env(sync, fsr, user)[name] == fsr_env(fsr.enabled, fsr.strength)[name],
        !user.contains_key(name) && !fsr_env(fsr.enabled, fsr.strength).contains_key(name)
            && sync_env(sync).contains_key(name) ==> launch_env(sync, fsr, user)[name] == sync_env(
            sync,
        )[name],
{
}

} // verus!
