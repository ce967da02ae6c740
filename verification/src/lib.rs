//! Launch readiness for a game launcher.
//!
//! The launcher keeps a configuration, runs a game under a compatibility
//! layer, and has to know at any time what it can do next: launch the game,
//! or first install or update the game, one of its voice packages, or the
//! community patch. This library holds the decisions behind that, and none of
//! the reading, writing, fetching or drawing around them:
//!
//! - [`config`] is the configuration with its defaults, and what a launch
//!   derives from it: the executable of the selected build and the process
//!   environment.
//! - [`env_vars`] is the map from variable names to values that the
//!   environment is made of.
//! - [`wine`], [`dxvk`] and [`components`] are the catalogs of builds on
//!   offer and the lists that show them.
//! - [`launcher`] decides the launcher state from the version comparisons of
//!   the game, its voice packages and the patch, one request at a time.
//! - [`i18n`] picks the language of the launcher's own texts.
//! - [`text`] writes numbers and joins texts.

pub mod components;
pub mod config;
pub mod dxvk;
pub mod env_vars;
pub mod i18n;
pub mod launcher;
pub mod text;
pub mod wine;
