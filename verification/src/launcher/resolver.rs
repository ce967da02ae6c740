//! The launcher-state resolver, one decision at a time.
//!
//! Resolving the launcher state means asking collaborators outside this
//! library: the provider of version comparisons, the constructor of voice
//! packages, the patch servers. The resolver itself performs none of that. It
//! says which request comes next, takes the answer, and either moves on or
//! settles on a state. Whoever drives it performs the requests in between,
//! and shows the labels that the resolver has for the progress sink. The sink
//! gives no answer, so it has no say in what the resolver does.

use crate::config::Config;
use crate::launcher::states::game_state;
use crate::launcher::states::patch_state;
use crate::launcher::states::voice_state;
use crate::launcher::states::LauncherState;
use crate::launcher::states::VersionDiff;
use crate::text::clone_all;
use crate::text::join;
use vstd::prelude::*;
use vstd::string::StringExecFns;

verus! {

/// Why a resolution ended without a state.
#[derive(Debug)]
pub enum ResolveError<E> {
    /// A configured voice locale is no known locale. Carries the locale as
    /// it is configured.
    UnknownVoiceLocale(String),
    /// An answer did not fit the request that was open.
    UnexpectedResponse,
    /// A collaborator failed. Carries its failure unchanged.
    Collaborator(E),
}

/// The words for a configured voice locale that is no known locale.
pub open spec fn unknown_locale_text(code: Seq<char>) -> Seq<char> {
    "Incorrect voice locale \""@ + code + "\" specified in the config"@
}

/// The words for an answer that did not fit the open request.
pub open spec fn unexpected_response_text() -> Seq<char> {
    "The answer does not fit the request"@
}

impl<E> ResolveError<E> {
    /// The resolver's own words for this error. A collaborator's failure has
    /// words of its own, so there are none for it here.
    pub fn describe(&self) -> (text: Option<String>)
        ensures
            match *self {
                ResolveError::UnknownVoiceLocale(code) => text matches Some(words) && words@
                    == unknown_locale_text(code@),
                ResolveError::UnexpectedResponse => text matches Some(words) && words@
                    == unexpected_response_text(),
                ResolveError::Collaborator(_) => text is None,
            },
    {
        match self {
            ResolveError::UnknownVoiceLocale(code) => {
                let mut words = join("Incorrect voice locale \"", code.as_str());
                words.append("\" specified in the config");
                Some(words)
            },
            ResolveError::UnexpectedResponse => Some(
                String::from_str("The answer does not fit the request"),
            ),
            ResolveError::Collaborator(_) => None,
        }
    }
}

/// What the resolver asks its driver to do next.
#[derive(Debug)]
pub enum Request {
    /// Compare the game installed at `game_path` with the newest version.
    GameDiff { game_path: String },
    /// Recognise the voice locale written as `code`.
    VoiceLocale { code: String },
    /// Construct the voice package of the locale just recognised.
    VoicePackage,
    /// Say whether that voice package is installed under `game_path`.
    VoiceInstalled { game_path: String },
    /// Replace that voice package by the one installed under `game_path`.
    InstalledVoicePackage { game_path: String },
    /// Compare that voice package with its newest version.
    VoiceDiff,
    /// Fetch the patch from the first of `servers` that answers.
    Patch { servers: Vec<String> },
    /// Say whether the patch just fetched is applied to the game at
    /// `game_path`.
    PatchApplied { game_path: String },
}

/// A request, with texts in place of strings.
pub enum RequestView {
    GameDiff { game_path: Seq<char> },
    VoiceLocale { code: Seq<char> },
    VoicePackage,
    VoiceInstalled { game_path: Seq<char> },
    InstalledVoicePackage { game_path: Seq<char> },
    VoiceDiff,
    Patch { servers: Seq<String> },
    PatchApplied { game_path: Seq<char> },
}

impl View for Request {
    type V = RequestView;

    open spec fn view(&self) -> RequestView {
        match *self {
            Request::GameDiff { game_path } => RequestView::GameDiff { game_path: game_path@ },
            Request::VoiceLocale { code } => RequestView::VoiceLocale { code: code@ },
            Request::VoicePackage => RequestView::VoicePackage,
            Request::VoiceInstalled { game_path } => RequestView::VoiceInstalled {
                game_path: game_path@,
            },
            Request::InstalledVoicePackage { game_path } => RequestView::InstalledVoicePackage {
                game_path: game_path@,
            },
            Request::VoiceDiff => RequestView::VoiceDiff,
            Request::Patch { servers } => RequestView::Patch { servers: servers@ },
            Request::PatchApplied { game_path } => RequestView::PatchApplied {
                game_path: game_path@,
            },
        }
    }
}

/// What the driver answers.
#[derive(Debug)]
pub enum Response<D, P, E> {
    /// The comparison that was asked for.
    Diff(VersionDiff<D>),
    /// The display name of the locale, or nothing if the locale is unknown.
    Locale(Option<String>),
    /// The voice package was constructed or replaced.
    Ready,
    /// Whether the voice package is installed.
    Installed(bool),
    /// The patch that was fetched.
    Patch(P),
    /// Whether the patch is applied.
    Applied(bool),
    /// The collaborator failed.
    Failed(E),
}

/// The request the resolver is waiting on.
#[derive(Debug)]
pub enum Phase<P> {
    GameDiff,
    VoiceLocale,
    /// Carries the display name of the locale just recognised.
    VoicePackage { name: String },
    /// Carries the display name of the locale of the package.
    VoiceInstalled { name: String },
    InstalledVoice,
    VoiceDiff,
    Patch,
    /// Carries the patch that was fetched.
    PatchApplied(P),
}

impl<P> Phase<P> {
    /// Whether the phase is about one particular voice package.
    pub open spec fn concerns_voice(self) -> bool {
        match self {
            Phase::VoiceLocale => true,
            Phase::VoicePackage { .. } => true,
            Phase::VoiceInstalled { .. } => true,
            Phase::InstalledVoice => true,
            Phase::VoiceDiff => true,
            _ => false,
        }
    }

    /// Whether the phase belongs to checking the patch.
    pub open spec fn concerns_patch(self) -> bool {
        match self {
            Phase::Patch => true,
            Phase::PatchApplied(_) => true,
            _ => false,
        }
    }
}

/// What a resolver knows: the parts of the configuration it works from,
/// which voice it is at, and the request it is waiting on.
pub struct ResolverModel<P> {
    pub game_path: String,
    pub voices: Seq<String>,
    pub servers: Seq<String>,
    pub voice: nat,
    pub phase: Phase<P>,
}

/// Where an answer leads.
pub enum Transition<D, P, E> {
    /// The resolver goes on with another request.
    Continue(ResolverModel<P>),
    /// The resolver settled on a state.
    Finished(LauncherState<D, P>),
    /// The resolution is aborted.
    Failed(ResolveError<E>),
}

/// The label shown while the game is checked.
pub open spec fn game_label() -> Seq<char> {
    "Updating game info..."@
}

/// The label shown when the check of the voice packages begins.
pub open spec fn voices_label() -> Seq<char> {
    "Updating voice info..."@
}

/// The label shown while the voice package called `name` is checked.
pub open spec fn voice_label(name: Seq<char>) -> Seq<char> {
    "Updating voice info ("@ + name + ")..."@
}

/// The label shown while the patch is checked.
pub open spec fn patch_label() -> Seq<char> {
    "Updating patch info..."@
}

impl<P> ResolverModel<P> {
    /// The resolver at the start of a resolution.
    pub open spec fn start(game_path: String, voices: Seq<String>, servers: Seq<String>) -> Self {
        ResolverModel { game_path, voices, servers, voice: 0, phase: Phase::GameDiff }
    }

    /// While a voice package is being checked, it is one of the configured
    /// ones.
    pub open spec fn wf(self) -> bool {
        self.phase.concerns_voice() ==> self.voice < self.voices.len()
    }

    /// The same resolver, waiting on another request.
    pub open spec fn at(self, phase: Phase<P>) -> Self {
        ResolverModel { phase, ..self }
    }

    /// The request that is open.
    pub open spec fn request(self) -> RequestView {
        match self.phase {
            Phase::GameDiff => RequestView::GameDiff { game_path: self.game_path@ },
            Phase::VoiceLocale => RequestView::VoiceLocale {
                code: self.voices[self.voice as int]@,
            },
            Phase::VoicePackage { .. } => RequestView::VoicePackage,
            Phase::VoiceInstalled { .. } => RequestView::VoiceInstalled {
                game_path: self.game_path@,
            },
            Phase::InstalledVoice => RequestView::InstalledVoicePackage {
                game_path: self.game_path@,
            },
            Phase::VoiceDiff => RequestView::VoiceDiff,
            Phase::Patch => RequestView::Patch { servers: self.servers },
            Phase::PatchApplied(_) => RequestView::PatchApplied { game_path: self.game_path@ },
        }
    }

    /// The labels to show on the progress sink before the open request is
    /// performed: one as the check of the game begins, one as the check of
    /// the voices begins, one for each voice package naming its locale, and
    /// one as the check of the patch begins.
    pub open spec fn progress(self) -> Seq<Seq<char>> {
        match self.phase {
            Phase::GameDiff => seq![game_label()],
            Phase::VoiceLocale => if self.voice == 0 {
                seq![voices_label()]
            } else {
                Seq::empty()
            },
            Phase::VoiceInstalled { name } => seq![voice_label(name@)],
            Phase::Patch => if self.voices.len() == 0 {
                seq![voices_label(), patch_label()]
            } else {
                seq![patch_label()]
            },
            _ => Seq::empty(),
        }
    }

    /// Where the resolver goes once the voice before `voice` is done with:
    /// to that voice if it is a configured one, or on to the patch.
    pub open spec fn at_voice(self, voice: nat) -> Self {
        if voice < self.voices.len() {
            ResolverModel { voice, phase: Phase::VoiceLocale, ..self }
        } else {
            self.at(Phase::Patch)
        }
    }

    /// Where the resolver goes after the voice package it is at turned out
    /// up to date: to the next configured voice, or on to the patch.
    pub open spec fn after_voice(self) -> Self {
        self.at_voice(self.voice + 1)
    }

    /// Where `response` leads when it answers the open request.
    ///
    /// A failure aborts the resolution, whatever the request was. The game
    /// is compared first, and anything but an up-to-date game settles the
    /// state. The voice packages follow in the configured order: each is
    /// constructed for its locale, replaced by the installed one if there is
    /// one, and compared; the first one that is not up to date settles the
    /// state, and an unknown locale aborts the resolution. Only then the
    /// patch is fetched, and whether it is applied settles the state.
    pub open spec fn step<D, E>(self, response: Response<D, P, E>) -> Transition<D, P, E> {
        match (self.phase, response) {
            (_, Response::Failed(failure)) => Transition::Failed(
                ResolveError::Collaborator(failure),
            ),
            (Phase::GameDiff, Response::Diff(diff)) => match game_state::<D, P>(diff) {
                Some(state) => Transition::Finished(state),
                None => Transition::Continue(self.at_voice(0)),
            },
            (Phase::VoiceLocale, Response::Locale(Some(name))) => Transition::Continue(
                self.at(Phase::VoicePackage { name }),
            ),
            (Phase::VoiceLocale, Response::Locale(None)) => Transition::Failed(
                ResolveError::UnknownVoiceLocale(self.voices[self.voice as int]),
            ),
            (Phase::VoicePackage { name }, Response::Ready) => Transition::Continue(
                self.at(Phase::VoiceInstalled { name }),
            ),
            (Phase::VoiceInstalled { .. }, Response::Installed(installed)) => if installed {
                Transition::Continue(self.at(Phase::InstalledVoice))
            } else {
                Transition::Continue(self.at(Phase::VoiceDiff))
            },
            (Phase::InstalledVoice, Response::Ready) => Transition::Continue(
                self.at(Phase::VoiceDiff),
            ),
            (Phase::VoiceDiff, Response::Diff(diff)) => match voice_state::<D, P>(diff) {
                Some(state) => Transition::Finished(state),
                None => Transition::Continue(self.after_voice()),
            },
            (Phase::Patch, Response::Patch(patch)) => Transition::Continue(
                self.at(Phase::PatchApplied(patch)),
            ),
            (Phase::PatchApplied(patch), Response::Applied(applied)) => Transition::Finished(
                patch_state::<D, P>(patch, applied),
            ),
            _ => Transition::Failed(ResolveError::UnexpectedResponse),
        }
    }

    /// An upper bound on the answers the resolver still needs before it
    /// settles.
    pub open spec fn remaining(self) -> nat {
        let left = 5 * (self.voices.len() - self.voice);
        match self.phase {
            Phase::GameDiff => 5 * self.voices.len() + 3,
            Phase::VoiceLocale => (left + 2) as nat,
            Phase::VoicePackage { .. } => (left + 1) as nat,
            Phase::VoiceInstalled { .. } => left as nat,
            Phase::InstalledVoice => (left - 1) as nat,
            Phase::VoiceDiff => (left - 2) as nat,
            Phase::Patch => 2,
            Phase::PatchApplied(_) => 1,
        }
    }
}

/// Every answer that lets the resolver go on brings it strictly closer to
/// settling, and leaves it at a configured voice.
pub proof fn lemma_step_progress<D, P, E>(model: ResolverModel<P>, response: Response<D, P, E>)
    requires
        model.wf(),
    ensures
        model.remaining() >= 1,
        model.step(response) matches Transition::Continue(next) ==> next.wf() && next.remaining()
            < model.remaining() && next.game_path == model.game_path && next.voices == model.voices
            && next.servers == model.servers,
        model.step(response) matches Transition::Finished(state) ==> state.wf(),
        response matches Response::Failed(failure) ==> model.step(response)
            == Transition::<D, P, E>::Failed(ResolveError::Collaborator(failure)),
{
}

/// A resolution in progress.
#[derive(Debug)]
pub struct Resolver<P> {
    game_path: String,
    voices: Vec<String>,
    servers: Vec<String>,
    voice: usize,
    phase: Phase<P>,
}

impl<P> View for Resolver<P> {
    type V = ResolverModel<P>;

    closed spec fn view(&self) -> ResolverModel<P> {
        ResolverModel {
            game_path: self.game_path,
            voices: self.voices@,
            servers: self.servers@,
            voice: self.voice as nat,
            phase: self.phase,
        }
    }
}

/// The outcome of handing one answer to a resolver.
#[derive(Debug)]
pub enum Next<D, P, E> {
    /// The resolver goes on; ask it for its next request.
    Continue(Resolver<P>),
    /// The launcher state.
    Finished(LauncherState<D, P>),
    /// The resolution is aborted.
    Failed(ResolveError<E>),
}

impl<D, P, E> View for Next<D, P, E> {
    type V = Transition<D, P, E>;

    open spec fn view(&self) -> Transition<D, P, E> {
        match *self {
            Next::Continue(resolver) => Transition::Continue(resolver@),
            Next::Finished(state) => Transition::Finished(state),
            Next::Failed(error) => Transition::Failed(error),
        }
    }
}

impl<P> Resolver<P> {
    #[verifier::type_invariant]
    spec fn inv(self) -> bool {
        self@.wf()
    }

    /// Starts a resolution for `config`: for the game at its path, its
    /// configured voices in their order, and its patch servers in their
    /// order.
    pub fn new(config: &Config) -> (resolver: Resolver<P>)
        ensures
            resolver@ == ResolverModel::<P>::start(
                config.game.path,
                config.game.voices@,
                config.patch.servers@,
            ),
    {
        Resolver {
            game_path: config.game.path.clone(),
            voices: clone_all(&config.game.voices),
            servers: clone_all(&config.patch.servers),
            voice: 0,
            phase: Phase::GameDiff,
        }
    }

    /// The request to perform next.
    pub fn request(&self) -> (request: Request)
        ensures
            self@.wf(),
            request@ == self@.request(),
    {
        proof {
            use_type_invariant(self);
        }
        match &self.phase {
            Phase::GameDiff => Request::GameDiff { game_path: self.game_path.clone() },
            Phase::VoiceLocale => Request::VoiceLocale { code: self.voices[self.voice].clone() },
            Phase::VoicePackage { .. } => Request::VoicePackage,
            Phase::VoiceInstalled { .. } => Request::VoiceInstalled {
                game_path: self.game_path.clone(),
            },
            Phase::InstalledVoice => Request::InstalledVoicePackage {
                game_path: self.game_path.clone(),
            },
            Phase::VoiceDiff => Request::VoiceDiff,
            Phase::Patch => Request::Patch { servers: clone_all(&self.servers) },
            Phase::PatchApplied(_) => Request::PatchApplied { game_path: self.game_path.clone() },
        }
    }

    /// The labels to show on the progress sink, in order, before the next
    /// request is performed.
    pub fn progress(&self) -> (labels: Vec<String>)
        ensures
            labels@.len() == self@.progress().len(),
            forall|i: int| 0 <= i < labels@.len() ==> (#[trigger] labels@[i])@ == self@.progress()[i],
    {
        let mut labels: Vec<String> = Vec::new();
        match &self.phase {
            Phase::GameDiff => {
                labels.push(String::from_str("Updating game info..."));
            },
            Phase::VoiceLocale => {
                if self.voice == 0 {
                    labels.push(String::from_str("Updating voice info..."));
                }
            },
            Phase::VoiceInstalled { name } => {
                let mut label = join("Updating voice info (", name.as_str());
                label.append(")...");
                labels.push(label);
            },
            Phase::Patch => {
                if self.voices.len() == 0 {
                    labels.push(String::from_str("Updating voice info..."));
                }
                labels.push(String::from_str("Updating patch info..."));
            },
            _ => {},
        }
        labels
    }

    /// Takes the answer to the open request.
    ///
    /// The resolver goes on, settles on a state, or aborts, as `step` says.
    /// In particular a failure is handed on unchanged, and a state that is
    /// settled on carries the kind of comparison that it names.
    pub fn advance<D, E>(self, response: Response<D, P, E>) -> (next: Next<D, P, E>)
        ensures
            self@.wf(),
            next@ == self@.step(response),
            response matches Response::Failed(failure) ==> next@ == Transition::<
                D,
                P,
                E,
            >::Failed(ResolveError::Collaborator(failure)),
            next matches Next::Finished(state) ==> state.wf(),
            next matches Next::Continue(resolver) ==> resolver@.wf() && resolver@.remaining()
                < self@.remaining(),
    {
        proof {
            use_type_invariant(&self);
            lemma_step_progress(self@, response);
        }
        let Resolver { game_path, voices, servers, voice, phase } = self;
        match (phase, response) {
            (_, Response::Failed(failure)) => Next::Failed(ResolveError::Collaborator(failure)),
            (Phase::GameDiff, Response::Diff(diff)) => match LauncherState::for_game(diff) {
                Some(state) => Next::Finished(state),
                None => if voices.len() > 0 {
                    Next::Continue(
                        Resolver { game_path, voices, servers, voice: 0, phase: Phase::VoiceLocale },
                    )
                } else {
                    Next::Continue(
                        Resolver { game_path, voices, servers, voice, phase: Phase::Patch },
                    )
                },
            },
            (Phase::VoiceLocale, Response::Locale(Some(name))) => Next::Continue(
                Resolver { game_path, voices, servers, voice, phase: Phase::VoicePackage { name } },
            ),
            (Phase::VoiceLocale, Response::Locale(None)) => Next::Failed(
                ResolveError::UnknownVoiceLocale(voices[voice].clone()),
            ),
            (Phase::VoicePackage { name }, Response::Ready) => Next::Continue(
                Resolver {
                    game_path,
                    voices,
                    servers,
                    voice,
                    phase: Phase::VoiceInstalled { name },
                },
            ),
            (Phase::VoiceInstalled { .. }, Response::Installed(installed)) => if installed {
                Next::Continue(
                    Resolver { game_path, voices, servers, voice, phase: Phase::InstalledVoice },
                )
            } else {
                Next::Continue(
                    Resolver { game_path, voices, servers, voice, phase: Phase::VoiceDiff },
                )
            },
            (Phase::InstalledVoice, Response::Ready) => Next::Continue(
                Resolver { game_path, voices, servers, voice, phase: Phase::VoiceDiff },
            ),
            (Phase::VoiceDiff, Response::Diff(diff)) => match LauncherState::for_voice(diff) {
                Some(state) => Next::Finished(state),
                None => if voice < voices.len() - 1 {
                    Next::Continue(
                        Resolver {
                            game_path,
                            voices,
                            servers,
                            voice: voice + 1,
                            phase: Phase::VoiceLocale,
                        },
                    )
                } else {
                    Next::Continue(
                        Resolver { game_path, voices, servers, voice, phase: Phase::Patch },
                    )
                },
            },
            (Phase::Patch, Response::Patch(patch)) => Next::Continue(
                Resolver { game_path, voices, servers, voice, phase: Phase::PatchApplied(patch) },
            ),
            (Phase::PatchApplied(patch), Response::Applied(applied)) => Next::Finished(
                LauncherState::for_patch(patch, applied),
            ),
            _ => Next::Failed(ResolveError::UnexpectedResponse),
        }
    }
}

} // verus!
