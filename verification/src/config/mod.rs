//! The launcher's settings.

pub mod hud;
pub mod launch;
pub mod storage;
pub mod wine_sync;

pub use hud::WineHUD;
pub use wine_sync::WineSync;

use crate::env_vars::EnvVars;
use crate::text::clone_all;
use crate::text::join;
use vstd::prelude::*;
use vstd::string::StringExecFns;

verus! {

/// A default directory: `suffix` under the launcher's home directory, or the
/// empty text, meaning "unset", when there is no home directory.
pub open spec fn path_in(launcher_dir: Option<Seq<char>>, suffix: Seq<char>) -> Seq<char> {
    match launcher_dir {
        Some(dir) => dir + suffix,
        None => Seq::empty(),
    }
}

/// The text of an optional directory.
pub open spec fn dir_view(launcher_dir: Option<&str>) -> Option<Seq<char>> {
    match launcher_dir {
        Some(dir) => Some(dir@),
        None => None,
    }
}

fn default_path(launcher_dir: Option<&str>, suffix: &str) -> (path: String)
    ensures
        path@ == path_in(dir_view(launcher_dir), suffix@),
{
    match launcher_dir {
        Some(dir) => join(dir, suffix),
        None => String::new(),
    }
}

/// Settings of the launcher itself.
#[derive(Debug)]
pub struct Launcher {
    pub language: String,
}

impl Clone for Launcher {
    fn clone(&self) -> (copy: Launcher)
        ensures
            copy == *self,
    {
        Launcher { language: self.language.clone() }
    }
}

impl Default for Launcher {
    fn default() -> (launcher: Launcher)
        ensures
            launcher.language@ == "en-us"@,
    {
        Launcher { language: String::from_str("en-us") }
    }
}

/// Where the community patch is kept and which servers offer it, most
/// preferred first.
#[derive(Debug)]
pub struct Patch {
    pub path: String,
    pub servers: Vec<String>,
}

impl Clone for Patch {
    fn clone(&self) -> (copy: Patch)
        ensures
            copy.same_as(*self),
    {
        Patch { path: self.path.clone(), servers: clone_all(&self.servers) }
    }
}

impl Patch {
    /// Whether two values hold the same settings.
    pub open spec fn same_as(self, other: Patch) -> bool {
        self.path == other.path && self.servers@ == other.servers@
    }

    /// Whether these are the settings a fresh installation starts with.
    pub open spec fn is_default_in(self, launcher_dir: Option<Seq<char>>) -> bool {
        &&& self.path@ == path_in(launcher_dir, "/patch"@)
        &&& self.servers@.len() == 0
    }

    /// The settings a fresh installation starts with.
    pub fn default_in(launcher_dir: Option<&str>) -> (patch: Patch)
        ensures
            patch.is_default_in(dir_view(launcher_dir)),
    {
        Patch { path: default_path(launcher_dir, "/patch"), servers: Vec::new() }
    }
}

/// The upscaling filter.
#[derive(Debug, Clone, Copy, PartialEq, Eq, Structural)]
pub struct Fsr {
    pub strength: u32,
    pub enabled: bool,
}

impl Default for Fsr {
    fn default() -> (fsr: Fsr)
        ensures
            fsr == (Fsr { strength: 2, enabled: false }),
    {
        Fsr { strength: 2, enabled: false }
    }
}

/// Optional improvements applied to a launch.
#[derive(Debug, Clone, Copy, PartialEq, Eq, Structural)]
pub struct Enhancements {
    pub fsr: Fsr,
    pub gamemode: bool,
    pub hud: WineHUD,
}

impl Default for Enhancements {
    fn default() -> (enhancements: Enhancements)
        ensures
            enhancements == (Enhancements {
                fsr: Fsr { strength: 2, enabled: false },
                gamemode: false,
                hud: WineHUD::Off,
            }),
    {
        Enhancements { fsr: Fsr::default(), gamemode: false, hud: WineHUD::default() }
    }
}

/// The compatibility layer: its prefix, where its builds are installed, and
/// which build is selected.
#[derive(Debug)]
pub struct Wine {
    pub prefix: String,
    pub builds: String,
    pub selected: Option<String>,
    pub sync: WineSync,
}

fn clone_name(name: &Option<String>) -> (copy: Option<String>)
    ensures
        copy == *name,
{
    match name {
        Some(name) => Some(name.clone()),
        None => None,
    }
}

impl Clone for Wine {
    fn clone(&self) -> (copy: Wine)
        ensures
            copy == *self,
    {
        Wine {
            prefix: self.prefix.clone(),
            builds: self.builds.clone(),
            selected: clone_name(&self.selected),
            sync: self.sync,
        }
    }
}

impl Wine {
    /// Whether these are the settings a fresh installation starts with.
    pub open spec fn is_default_in(self, launcher_dir: Option<Seq<char>>) -> bool {
        &&& self.prefix@ == path_in(launcher_dir, "/game"@)
        &&& self.builds@ == path_in(launcher_dir, "/runners"@)
        &&& self.selected is None
        &&& self.sync == WineSync::ESync
    }

    /// The settings a fresh installation starts with.
    pub fn default_in(launcher_dir: Option<&str>) -> (wine: Wine)
        ensures
            wine.is_default_in(dir_view(launcher_dir)),
    {
        Wine {
            prefix: default_path(launcher_dir, "/game"),
            builds: default_path(launcher_dir, "/runners"),
            selected: None,
            sync: WineSync::default(),
        }
    }
}

/// The Direct3D layer: where its builds are installed and which
/// one is selected.
#[derive(Debug)]
pub struct Dxvk {
    pub builds: String,
    pub selected: Option<String>,
}

impl Clone for Dxvk {
    fn clone(&self) -> (copy: Dxvk)
        ensures
            copy == *self,
    {
        Dxvk { builds: self.builds.clone(), selected: clone_name(&self.selected) }
    }
}

impl Dxvk {
    /// Whether these are the settings a fresh installation starts with.
    pub open spec fn is_default_in(self, launcher_dir: Option<Seq<char>>) -> bool {
        &&& self.builds@ == path_in(launcher_dir, "/dxvks"@)
        &&& self.selected is None
    }

    /// The settings a fresh installation starts with.
    pub fn default_in(launcher_dir: Option<&str>) -> (dxvk: Dxvk)
        ensures
            dxvk.is_default_in(dir_view(launcher_dir)),
    {
        Dxvk { builds: default_path(launcher_dir, "/dxvks"), selected: None }
    }
}

/// The game: where it is installed, which voice packages it should have, and
/// how it is run.
#[derive(Debug)]
pub struct Game {
    pub path: String,
    pub voices: Vec<String>,
    pub wine: Wine,
    pub dxvk: Dxvk,
    pub enhancements: Enhancements,
    pub environment: EnvVars,
}

impl Clone for Game {
    fn clone(&self) -> (copy: Game)
        ensures
            copy.same_as(*self),
    {
        Game {
            path: self.path.clone(),
            voices: clone_all(&self.voices),
            wine: self.wine.clone(),
            dxvk: self.dxvk.clone(),
            enhancements: self.enhancements,
            environment: self.environment.clone(),
        }
    }
}

impl Game {
    /// Whether two values hold the same settings.
    pub open spec fn same_as(self, other: Game) -> bool {
        &&& self.path == other.path
        &&& self.voices@ == other.voices@
        &&& self.wine == other.wine
        &&& self.dxvk == other.dxvk
        &&& self.enhancements == other.enhancements
        &&& self.environment@ == other.environment@
    }

    /// Whether these are the settings a fresh installation starts with.
    pub open spec fn is_default_in(self, launcher_dir: Option<Seq<char>>) -> bool {
        &&& self.path@ == path_in(launcher_dir, "/game/drive_c/Program Files/Genshin Impact"@)
        &&& self.voices@.len() == 1
        &&& self.voices@[0]@ == "en-us"@
        &&& self.wine.is_default_in(launcher_dir)
        &&& self.dxvk.is_default_in(launcher_dir)
        &&& self.enhancements == (Enhancements {
            fsr: Fsr { strength: 2, enabled: false },
            gamemode: false,
            hud: WineHUD::Off,
        })
        &&& self.environment@ == Map::<Seq<char>, Seq<char>>::empty()
    }

    /// The settings a fresh installation starts with.
    pub fn default_in(launcher_dir: Option<&str>) -> (game: Game)
        ensures
            game.is_default_in(dir_view(launcher_dir)),
    {
        let mut voices: Vec<String> = Vec::new();
        voices.push(String::from_str("en-us"));
        Game {
            path: default_path(launcher_dir, "/game/drive_c/Program Files/Genshin Impact"),
            voices,
            wine: Wine::default_in(launcher_dir),
            dxvk: Dxvk::default_in(launcher_dir),
            enhancements: Enhancements::default(),
            environment: EnvVars::new(),
        }
    }
}

/// Everything the user can adjust.
#[derive(Debug)]
pub struct Config {
    pub launcher: Launcher,
    pub game: Game,
    pub patch: Patch,
}

impl Clone for Config {
    fn clone(&self) -> (copy: Config)
        ensures
            copy.same_as(*self),
    {
        Config {
            launcher: self.launcher.clone(),
            game: self.game.clone(),
            patch: self.patch.clone(),
        }
    }
}

impl Config {
    /// Whether two values hold the same settings.
    pub open spec fn same_as(self, other: Config) -> bool {
        &&& self.launcher == other.launcher
        &&& self.game.same_as(other.game)
        &&& self.patch.same_as(other.patch)
    }

    /// Whether these are the settings a fresh installation starts with.
    pub open spec fn is_default_in(self, launcher_dir: Option<Seq<char>>) -> bool {
        &&& self.launcher.language@ == "en-us"@
        &&& self.game.is_default_in(launcher_dir)
        &&& self.patch.is_default_in(launcher_dir)
    }

    /// The settings a fresh installation starts with. Every directory lies
    /// under `launcher_dir`; without one, every directory is left unset.
    pub fn default_in(launcher_dir: Option<&str>) -> (config: Config)
        ensures
            config.is_default_in(dir_view(launcher_dir)),
    {
        Config {
            launcher: Launcher::default(),
            game: Game::default_in(launcher_dir),
            patch: Patch::default_in(launcher_dir),
        }
    }
}

} // verus!
