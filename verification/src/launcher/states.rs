//! Version comparisons and the launcher states they add up to.

use vstd::prelude::*;

verus! {

/// How an installed artifact compares with the newest known version. Each
/// verdict carries what its provider reported with it; the launcher reads
/// only the verdict and hands the rest on.
#[derive(Debug, Clone)]
pub enum VersionDiff<T> {
    /// The installed artifact is the newest one.
    Latest(T),
    /// The installed artifact is older and can be updated in place.
    Diff(T),
    /// The installed artifact is too old to be updated in place.
    Outdated(T),
    /// Nothing is installed.
    NotInstalled(T),
}

/// What the launcher can do next. Exactly one state holds at a time; a state
/// of the game outranks a state of a voice package, which outranks the state
/// of the patch.
#[derive(Debug, Clone)]
pub enum LauncherState<D, P> {
    Launch,
    PatchAvailable(P),
    /// Always carries a `VersionDiff::Diff`.
    VoiceUpdateAvailable(VersionDiff<D>),
    /// Always carries a `VersionDiff::Outdated`.
    VoiceOutdated(VersionDiff<D>),
    /// Always carries a `VersionDiff::NotInstalled`.
    VoiceNotInstalled(VersionDiff<D>),
    /// Always carries a `VersionDiff::Diff`.
    GameUpdateAvailable(VersionDiff<D>),
    /// Always carries a `VersionDiff::Outdated`.
    GameOutdated(VersionDiff<D>),
    /// Always carries a `VersionDiff::NotInstalled`.
    GameNotInstalled(VersionDiff<D>),
}

/// The state a comparison of the game itself calls for; none when the game
/// is up to date.
pub open spec fn game_state<D, P>(diff: VersionDiff<D>) -> Option<LauncherState<D, P>> {
    match diff {
        VersionDiff::Latest(_) => None,
        VersionDiff::Diff(_) => Some(LauncherState::GameUpdateAvailable(diff)),
        VersionDiff::Outdated(_) => Some(LauncherState::GameOutdated(diff)),
        VersionDiff::NotInstalled(_) => Some(LauncherState::GameNotInstalled(diff)),
    }
}

/// The state a comparison of a voice package calls for; none when the
/// package is up to date.
pub open spec fn voice_state<D, P>(diff: VersionDiff<D>) -> Option<LauncherState<D, P>> {
    match diff {
        VersionDiff::Latest(_) => None,
        VersionDiff::Diff(_) => Some(LauncherState::VoiceUpdateAvailable(diff)),
        VersionDiff::Outdated(_) => Some(LauncherState::VoiceOutdated(diff)),
        VersionDiff::NotInstalled(_) => Some(LauncherState::VoiceNotInstalled(diff)),
    }
}

/// The state the patch calls for once game and voices are up to date.
pub open spec fn patch_state<D, P>(patch: P, applied: bool) -> LauncherState<D, P> {
    if applied {
        LauncherState::Launch
    } else {
        LauncherState::PatchAvailable(patch)
    }
}

impl<T> VersionDiff<T> {
    /// Whether the installed artifact is the newest one.
    pub fn is_latest(&self) -> (latest: bool)
        ensures
            latest == (*self is Latest),
    {
        match self {
            VersionDiff::Latest(_) => true,
            _ => false,
        }
    }

    /// What the provider reported along with the verdict.
    pub open spec fn spec_details(self) -> T {
        match self {
            VersionDiff::Latest(details) => details,
            VersionDiff::Diff(details) => details,
            VersionDiff::Outdated(details) => details,
            VersionDiff::NotInstalled(details) => details,
        }
    }

    /// What the provider reported along with the verdict.
    pub fn details(&self) -> (details: &T)
        ensures
            *details == self.spec_details(),
    {
        match self {
            VersionDiff::Latest(details) => details,
            VersionDiff::Diff(details) => details,
            VersionDiff::Outdated(details) => details,
            VersionDiff::NotInstalled(details) => details,
        }
    }
}

impl<T> VersionDiff<T> {
    /// Hands out what the provider reported along with the verdict.
    pub fn into_details(self) -> (details: T)
        ensures
            details == self.spec_details(),
    {
        match self {
            VersionDiff::Latest(details) => details,
            VersionDiff::Diff(details) => details,
            VersionDiff::Outdated(details) => details,
            VersionDiff::NotInstalled(details) => details,
        }
    }
}

impl<D, P> LauncherState<D, P> {
    /// Whether the state carries the kind of comparison that it names.
    pub open spec fn wf(self) -> bool {
        match self {
            LauncherState::Launch => true,
            LauncherState::PatchAvailable(_) => true,
            LauncherState::VoiceUpdateAvailable(diff) => diff is Diff,
            LauncherState::VoiceOutdated(diff) => diff is Outdated,
            LauncherState::VoiceNotInstalled(diff) => diff is NotInstalled,
            LauncherState::GameUpdateAvailable(diff) => diff is Diff,
            LauncherState::GameOutdated(diff) => diff is Outdated,
            LauncherState::GameNotInstalled(diff) => diff is NotInstalled,
        }
    }

    /// The state a comparison of the game itself calls for; none when the
    /// game is up to date.
    pub fn for_game(diff: VersionDiff<D>) -> (state: Option<LauncherState<D, P>>)
        ensures
            state == game_state::<D, P>(diff),
            state matches Some(s) ==> s.wf(),
    {
        match diff {
            VersionDiff::Latest(_) => None,
            VersionDiff::Diff(_) => Some(LauncherState::GameUpdateAvailable(diff)),
            VersionDiff::Outdated(_) => Some(LauncherState::GameOutdated(diff)),
            VersionDiff::NotInstalled(_) => Some(LauncherState::GameNotInstalled(diff)),
        }
    }

    /// The state a comparison of a voice package calls for; none when the
    /// package is up to date.
    pub fn for_voice(diff: VersionDiff<D>) -> (state: Option<LauncherState<D, P>>)
        ensures
            state == voice_state::<D, P>(diff),
            state matches Some(s) ==> s.wf(),
    {
        match diff {
            VersionDiff::Latest(_) => None,
            VersionDiff::Diff(_) => Some(LauncherState::VoiceUpdateAvailable(diff)),
            VersionDiff::Outdated(_) => Some(LauncherState::VoiceOutdated(diff)),
            VersionDiff::NotInstalled(_) => Some(LauncherState::VoiceNotInstalled(diff)),
        }
    }

    /// The state the patch calls for once game and voices are up to date.
    pub fn for_patch(patch: P, applied: bool) -> (state: LauncherState<D, P>)
        ensures
            state == patch_state::<D, P>(patch, applied),
            state.wf(),
    {
        if applied {
            LauncherState::Launch
        } else {
            LauncherState::PatchAvailable(patch)
        }
    }
}

impl<D, P> Default for LauncherState<D, P> {
    fn default() -> (state: LauncherState<D, P>)
        ensures
            state == LauncherState::<D, P>::Launch,
    {
        LauncherState::Launch
    }
}

} // verus!
