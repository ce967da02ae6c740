//! What a whole resolution comes to.
//!
//! A resolver is driven by answers. Here the answers are fixed in advance,
//! as a `World`, and the resolver is run against them until it settles. The
//! theorems say which state it settles on, and which requests it makes on
//! the way, for every world.

use crate::launcher::resolver::game_label;
use crate::launcher::resolver::lemma_step_progress;
use crate::launcher::resolver::patch_label;
use crate::launcher::resolver::voice_label;
use crate::launcher::resolver::voices_label;
use crate::launcher::resolver::Phase;
use crate::launcher::resolver::ResolveError;
use crate::launcher::resolver::ResolverModel;
use crate::launcher::resolver::Response;
use crate::launcher::resolver::Transition;
use crate::launcher::states::game_state;
use crate::launcher::states::patch_state;
use crate::launcher::states::voice_state;
use crate::launcher::states::VersionDiff;
use vstd::prelude::*;

verus! {

/// What the collaborators have to say about one configured voice.
pub struct VoiceFacts<D> {
    /// The display name of its locale; none if the locale is unknown.
    pub name: Option<String>,
    /// Whether its package is installed under the game directory.
    pub installed: bool,
    /// How its package compares with the newest version.
    pub diff: VersionDiff<D>,
}

/// What the collaborators have to say, none of them failing: about the game,
/// about each configured voice in order, and about the patch.
pub struct World<D, P> {
    pub game: VersionDiff<D>,
    pub voices: Seq<VoiceFacts<D>>,
    pub patch: P,
    pub applied: bool,
}

/// A resolution from some point on: how it ends, and the resolver at each
/// request it makes, in order.
pub struct Run<D, P, E> {
    pub outcome: Transition<D, P, E>,
    pub asked: Seq<ResolverModel<P>>,
}

impl<D> VoiceFacts<D> {
    /// Whether the voice gives the resolver no reason to stop: its locale is
    /// known and its package is up to date.
    pub open spec fn settled(self) -> bool {
        self.name is Some && self.diff is Latest
    }
}

impl<D, P> World<D, P> {
    /// The answer to the request that `model` has open.
    pub open spec fn answer<E>(self, model: ResolverModel<P>) -> Response<D, P, E> {
        match model.phase {
            Phase::GameDiff => Response::Diff(self.game),
            Phase::VoiceLocale => Response::Locale(self.voices[model.voice as int].name),
            Phase::VoicePackage { .. } => Response::Ready,
            Phase::VoiceInstalled { .. } => Response::Installed(
                self.voices[model.voice as int].installed,
            ),
            Phase::InstalledVoice => Response::Ready,
            Phase::VoiceDiff => Response::Diff(self.voices[model.voice as int].diff),
            Phase::Patch => Response::Patch(self.patch),
            Phase::PatchApplied(_) => Response::Applied(self.applied),
        }
    }

    /// Whether voice `i` is the first one that is not settled.
    pub open spec fn deciding_voice(self, i: int) -> bool {
        &&& 0 <= i < self.voices.len()
        &&& !self.voices[i].settled()
        &&& forall|j: int| 0 <= j < i ==> (#[trigger] self.voices[j]).settled()
    }

    /// Whether every voice from `from` on is settled.
    pub open spec fn settled_from(self, from: int) -> bool {
        forall|j: int| from <= j < self.voices.len() ==> (#[trigger] self.voices[j]).settled()
    }
}

/// Runs the resolver from `model` against `world` until it settles.
pub open spec fn run<D, P, E>(model: ResolverModel<P>, world: World<D, P>) -> Run<D, P, E>
    decreases model.remaining(),
{
    if !model.wf() {
        Run { outcome: Transition::Continue(model), asked: Seq::empty() }
    } else {
        match model.step(world.answer::<E>(model)) {
            Transition::Continue(next) => {
                proof {
                    lemma_step_progress(model, world.answer::<E>(model));
                }
                let rest = run::<D, P, E>(next, world);
                Run { outcome: rest.outcome, asked: seq![model] + rest.asked }
            },
            settled => Run { outcome: settled, asked: seq![model] },
        }
    }
}

/// Runs the resolver from `model` against `world`, with collaborators that
/// may fail: `failure` tells, for the resolver at a request, the failure that
/// the request ends in, if it ends in one.
pub open spec fn run_failing<D, P, E>(
    model: ResolverModel<P>,
    world: World<D, P>,
    failure: spec_fn(ResolverModel<P>) -> Option<E>,
) -> Run<D, P, E>
    decreases model.remaining(),
{
    if !model.wf() {
        Run { outcome: Transition::Continue(model), asked: Seq::empty() }
    } else {
        let response = match failure(model) {
            Some(failed) => Response::Failed(failed),
            None => world.answer::<E>(model),
        };
        match model.step(response) {
            Transition::Continue(next) => {
                proof {
                    lemma_step_progress(model, response);
                }
                let rest = run_failing::<D, P, E>(next, world, failure);
                Run { outcome: rest.outcome, asked: seq![model] + rest.asked }
            },
            settled => Run { outcome: settled, asked: seq![model] },
        }
    }
}

/// Whether request `k` of a run is the first one that ends in a failure.
pub open spec fn first_failure<P, E>(
    asked: Seq<ResolverModel<P>>,
    failure: spec_fn(ResolverModel<P>) -> Option<E>,
    k: int,
) -> bool {
    &&& 0 <= k < asked.len()
    &&& failure(asked[k]) is Some
    &&& forall|j: int| 0 <= j < k ==> failure(#[trigger] asked[j]) is None
}

/// What a voice that is not settled makes of the resolution: an unknown
/// locale aborts it, a package that is not up to date settles the state.
pub open spec fn voice_outcome<D, P, E>(code: String, facts: VoiceFacts<D>) -> Transition<D, P, E> {
    match facts.name {
        None => Transition::Failed(ResolveError::UnknownVoiceLocale(code)),
        Some(_) => match voice_state::<D, P>(facts.diff) {
            Some(state) => Transition::Finished(state),
            None => arbitrary(),
        },
    }
}

/// The labels that the progress sink is shown over a sequence of requests,
/// in order.
pub open spec fn shown<P>(asked: Seq<ResolverModel<P>>) -> Seq<Seq<char>>
    decreases asked.len(),
{
    if asked.len() == 0 {
        Seq::empty()
    } else {
        shown(asked.drop_last()) + asked.last().progress()
    }
}

/// The label that opens the check of the voices, shown with the first voice
/// and with no other.
pub open spec fn opening_label(voice: nat) -> Seq<Seq<char>> {
    if voice == 0 {
        seq![voices_label()]
    } else {
        Seq::empty()
    }
}

/// The labels of the voices from `from` up to, not including, `to`, each
/// naming its locale.
pub open spec fn voice_labels<D, P>(world: World<D, P>, from: int, to: int) -> Seq<Seq<char>> {
    Seq::new((to - from) as nat, |i: int| voice_label(world.voices[from + i].name->0@))
}

/// The label of a voice that ends the resolution: shown if its locale is
/// known, for then its package is looked at; not shown if the locale is
/// unknown.
pub open spec fn deciding_label<D>(facts: VoiceFacts<D>) -> Seq<Seq<char>> {
    match facts.name {
        Some(name) => seq![voice_label(name@)],
        None => Seq::empty(),
    }
}

/// The labels of one more request follow those of the requests before it.
proof fn lemma_shown_push<P>(asked: Seq<ResolverModel<P>>, model: ResolverModel<P>)
    ensures
        shown(asked.push(model)) == shown(asked) + model.progress(),
{
    assert(asked.push(model).drop_last() =~= asked);
}

/// The labels of two stretches of requests, one after the other.
proof fn lemma_shown_concat<P>(first: Seq<ResolverModel<P>>, second: Seq<ResolverModel<P>>)
    ensures
        shown(first + second) == shown(first) + shown(second),
    decreases second.len(),
{
    if second.len() == 0 {
        assert(first + second =~= first);
        assert(shown(first) + shown(second) =~= shown(first));
    } else {
        assert((first + second).drop_last() =~= first + second.drop_last());
        lemma_shown_concat(first, second.drop_last());
        assert(shown(first + second) =~= shown(first) + shown(second));
    }
}

/// One step of a run that goes on: the resolver that asked, then the rest.
proof fn lemma_run_continue<D, P, E>(
    model: ResolverModel<P>,
    world: World<D, P>,
    next: ResolverModel<P>,
)
    requires
        model.wf(),
        model.step(world.answer::<E>(model)) == Transition::<D, P, E>::Continue(next),
    ensures
        run::<D, P, E>(model, world).outcome == run::<D, P, E>(next, world).outcome,
        run::<D, P, E>(model, world).asked == seq![model] + run::<D, P, E>(next, world).asked,
{
}

/// The last step of a run: the resolver that asked, and what the answer led
/// to.
proof fn lemma_run_stop<D, P, E>(model: ResolverModel<P>, world: World<D, P>)
    requires
        model.wf(),
        !(model.step(world.answer::<E>(model)) is Continue),
    ensures
        run::<D, P, E>(model, world).outcome == model.step(world.answer::<E>(model)),
        run::<D, P, E>(model, world).asked == seq![model],
{
}

/// From recognising a voice's locale to comparing its package: the requests
/// made about a voice whose locale is known, up to the comparison.
proof fn lemma_voice_prelude<D, P, E>(model: ResolverModel<P>, world: World<D, P>) -> (visited:
    Seq<ResolverModel<P>>)
    requires
        model.phase == Phase::<P>::VoiceLocale,
        model.voice < model.voices.len(),
        world.voices.len() == model.voices.len(),
        world.voices[model.voice as int].name is Some,
    ensures
        run::<D, P, E>(model, world).outcome == run::<D, P, E>(
            model.at(Phase::VoiceDiff),
            world,
        ).outcome,
        run::<D, P, E>(model, world).asked == visited + run::<D, P, E>(
            model.at(Phase::VoiceDiff),
            world,
        ).asked,
        visited.len() == if world.voices[model.voice as int].installed {
            4int
        } else {
            3int
        },
        forall|k: int|
            0 <= k < visited.len() ==> (#[trigger] visited[k]).voice == model.voice
                && visited[k].phase.concerns_voice(),
        shown(visited) == opening_label(model.voice) + seq![
            voice_label(world.voices[model.voice as int].name->0@),
        ],
{
    let facts = world.voices[model.voice as int];
    let name = facts.name->0;
    let m1 = model.at(Phase::VoicePackage { name });
    let m2 = model.at(Phase::VoiceInstalled { name });
    let m3 = model.at(Phase::InstalledVoice);
    let m4 = model.at(Phase::VoiceDiff);
    let rest = run::<D, P, E>(m4, world);
    lemma_run_continue::<D, P, E>(model, world, m1);
    lemma_run_continue::<D, P, E>(m1, world, m2);
    if facts.installed {
        lemma_run_continue::<D, P, E>(m2, world, m3);
        lemma_run_continue::<D, P, E>(m3, world, m4);
        let visited = seq![model, m1, m2, m3];
        assert(seq![model] + (seq![m1] + (seq![m2] + (seq![m3] + rest.asked))) =~= visited
            + rest.asked);
        lemma_shown_push(Seq::empty(), model);
        lemma_shown_push(seq![model], m1);
        lemma_shown_push(seq![model, m1], m2);
        lemma_shown_push(seq![model, m1, m2], m3);
        assert(Seq::<ResolverModel<P>>::empty().push(model) =~= seq![model]);
        assert(seq![model].push(m1) =~= seq![model, m1]);
        assert(seq![model, m1].push(m2) =~= seq![model, m1, m2]);
        assert(seq![model, m1, m2].push(m3) =~= visited);
        assert(shown(visited) =~= opening_label(model.voice) + seq![voice_label(name@)]);
        visited
    } else {
        lemma_run_continue::<D, P, E>(m2, world, m4);
        let visited = seq![model, m1, m2];
        assert(seq![model] + (seq![m1] + (seq![m2] + rest.asked)) =~= visited + rest.asked);
        lemma_shown_push(Seq::empty(), model);
        lemma_shown_push(seq![model], m1);
        lemma_shown_push(seq![model, m1], m2);
        assert(Seq::<ResolverModel<P>>::empty().push(model) =~= seq![model]);
        assert(seq![model].push(m1) =~= seq![model, m1]);
        assert(seq![model, m1].push(m2) =~= visited);
        assert(shown(visited) =~= opening_label(model.voice) + seq![voice_label(name@)]);
        visited
    }
}

/// A settled voice is passed over: the resolver makes its requests about
/// that voice and goes on to the next one, or to the patch after the last.
pub proof fn lemma_settled_voice<D, P, E>(model: ResolverModel<P>, world: World<D, P>) -> (visited:
    Seq<ResolverModel<P>>)
    requires
        model.phase == Phase::<P>::VoiceLocale,
        model.voice < model.voices.len(),
        world.voices.len() == model.voices.len(),
        world.voices[model.voice as int].settled(),
    ensures
        run::<D, P, E>(model, world).outcome == run::<D, P, E>(model.after_voice(), world).outcome,
        run::<D, P, E>(model, world).asked == visited + run::<D, P, E>(
            model.after_voice(),
            world,
        ).asked,
        visited.len() == if world.voices[model.voice as int].installed {
            5int
        } else {
            4int
        },
        forall|k: int|
            0 <= k < visited.len() ==> (#[trigger] visited[k]).voice == model.voice
                && visited[k].phase.concerns_voice(),
        shown(visited) == opening_label(model.voice) + seq![
            voice_label(world.voices[model.voice as int].name->0@),
        ],
{
    let prelude = lemma_voice_prelude::<D, P, E>(model, world);
    let m5 = model.at(Phase::VoiceDiff);
    let rest = run::<D, P, E>(model.after_voice(), world);
    lemma_run_continue::<D, P, E>(m5, world, model.after_voice());
    let visited = prelude.push(m5);
    assert(prelude + (seq![m5] + rest.asked) =~= visited + rest.asked);
    lemma_shown_push(prelude, m5);
    assert(shown(prelude) + m5.progress() =~= shown(prelude));
    visited
}

/// A voice that is not settled ends the resolution, and every request made
/// from there on is about that voice.
pub proof fn lemma_unsettled_voice<D, P, E>(model: ResolverModel<P>, world: World<D, P>)
    requires
        model.phase == Phase::<P>::VoiceLocale,
        model.voice < model.voices.len(),
        world.voices.len() == model.voices.len(),
        !world.voices[model.voice as int].settled(),
    ensures
        run::<D, P, E>(model, world).outcome == voice_outcome::<D, P, E>(
            model.voices[model.voice as int],
            world.voices[model.voice as int],
        ),
        forall|k: int|
            0 <= k < run::<D, P, E>(model, world).asked.len() ==> (#[trigger] run::<D, P, E>(
                model,
                world,
            ).asked[k]).voice == model.voice && run::<D, P, E>(
                model,
                world,
            ).asked[k].phase.concerns_voice(),
        shown(run::<D, P, E>(model, world).asked) == opening_label(model.voice) + deciding_label(
            world.voices[model.voice as int],
        ),
{
    let facts = world.voices[model.voice as int];
    if facts.name is Some {
        let prelude = lemma_voice_prelude::<D, P, E>(model, world);
        let m5 = model.at(Phase::VoiceDiff);
        lemma_run_stop::<D, P, E>(m5, world);
        assert(run::<D, P, E>(model, world).asked =~= prelude.push(m5));
        lemma_shown_push(prelude, m5);
        assert(shown(prelude) + m5.progress() =~= shown(prelude));
    } else {
        lemma_run_stop::<D, P, E>(model, world);
        lemma_shown_push(Seq::empty(), model);
        assert(Seq::<ResolverModel<P>>::empty().push(model) =~= seq![model]);
        assert(shown(seq![model]) =~= opening_label(model.voice));
        assert(opening_label(model.voice) + Seq::<Seq<char>>::empty() =~= opening_label(
            model.voice,
        ));
    }
}

/// From any voice on, with `deciding` the first voice that is not settled:
/// that voice ends the resolution, and no request is made about a later one
/// or about the patch.
pub proof fn lemma_voices_until<D, P, E>(
    model: ResolverModel<P>,
    world: World<D, P>,
    deciding: int,
)
    requires
        model.phase == Phase::<P>::VoiceLocale,
        world.voices.len() == model.voices.len(),
        world.deciding_voice(deciding),
        model.voice <= deciding,
    ensures
        run::<D, P, E>(model, world).outcome == voice_outcome::<D, P, E>(
            model.voices[deciding],
            world.voices[deciding],
        ),
        forall|k: int|
            0 <= k < run::<D, P, E>(model, world).asked.len() ==> model.voice <= (
            #[trigger] run::<D, P, E>(model, world).asked[k]).voice <= deciding && run::<D, P, E>(
                model,
                world,
            ).asked[k].phase.concerns_voice(),
        shown(run::<D, P, E>(model, world).asked) == opening_label(model.voice) + voice_labels(
            world,
            model.voice as int,
            deciding,
        ) + deciding_label(world.voices[deciding]),
    decreases deciding - model.voice,
{
    if model.voice == deciding {
        lemma_unsettled_voice::<D, P, E>(model, world);
        assert(opening_label(model.voice) + voice_labels(world, model.voice as int, deciding)
            =~= opening_label(model.voice));
    } else {
        assert(world.voices[model.voice as int].settled());
        let visited = lemma_settled_voice::<D, P, E>(model, world);
        let after = model.after_voice();
        lemma_voices_until::<D, P, E>(after, world, deciding);
        let rest = run::<D, P, E>(after, world).asked;
        assert forall|k: int| 0 <= k < (visited + rest).len() implies model.voice <= (#[trigger] (
        visited + rest)[k]).voice <= deciding && (visited + rest)[k].phase.concerns_voice() by {
            if k < visited.len() {
                assert((visited + rest)[k] == visited[k]);
            } else {
                assert((visited + rest)[k] == rest[k - visited.len()]);
            }
        }
        lemma_shown_concat(visited, rest);
        let own = seq![voice_label(world.voices[model.voice as int].name->0@)];
        assert(own + voice_labels(world, (model.voice + 1) as int, deciding) =~= voice_labels(
            world,
            model.voice as int,
            deciding,
        ));
        assert((opening_label(model.voice) + own) + (opening_label(after.voice) + voice_labels(
            world,
            after.voice as int,
            deciding,
        ) + deciding_label(world.voices[deciding])) =~= opening_label(model.voice) + voice_labels(
            world,
            model.voice as int,
            deciding,
        ) + deciding_label(world.voices[deciding]));
    }
}

/// From any voice on, with every voice from there settled: the patch
/// decides. If it is applied the game can be launched, else the patch is on
/// offer, and the state carries the very patch that was fetched.
pub proof fn lemma_voices_settled<D, P, E>(model: ResolverModel<P>, world: World<D, P>)
    requires
        model.phase == Phase::<P>::VoiceLocale,
        model.voice < model.voices.len(),
        world.voices.len() == model.voices.len(),
        world.settled_from(model.voice as int),
    ensures
        run::<D, P, E>(model, world).outcome == Transition::<D, P, E>::Finished(
            patch_state(world.patch, world.applied),
        ),
        shown(run::<D, P, E>(model, world).asked) == opening_label(model.voice) + voice_labels(
            world,
            model.voice as int,
            world.voices.len() as int,
        ) + seq![patch_label()],
    decreases model.voices.len() - model.voice,
{
    assert(world.voices[model.voice as int].settled());
    let visited = lemma_settled_voice::<D, P, E>(model, world);
    let after = model.after_voice();
    let rest = run::<D, P, E>(after, world).asked;
    let count = world.voices.len() as int;
    let own = seq![voice_label(world.voices[model.voice as int].name->0@)];
    lemma_shown_concat(visited, rest);
    assert(own + voice_labels(world, (model.voice + 1) as int, count) =~= voice_labels(
        world,
        model.voice as int,
        count,
    ));
    if model.voice + 1 < model.voices.len() {
        lemma_voices_settled::<D, P, E>(after, world);
        assert((opening_label(model.voice) + own) + (opening_label(after.voice) + voice_labels(
            world,
            after.voice as int,
            count,
        ) + seq![patch_label()]) =~= opening_label(model.voice) + voice_labels(
            world,
            model.voice as int,
            count,
        ) + seq![patch_label()]);
    } else {
        lemma_patch::<D, P, E>(after, world);
        assert((opening_label(model.voice) + own) + seq![patch_label()] =~= opening_label(
            model.voice,
        ) + voice_labels(world, model.voice as int, count) + seq![patch_label()]);
    }
}

/// The patch phase: the patch is fetched, then asked about, and the state
/// is the one the patch calls for.
pub proof fn lemma_patch<D, P, E>(model: ResolverModel<P>, world: World<D, P>)
    requires
        model.phase == Phase::<P>::Patch,
    ensures
        run::<D, P, E>(model, world).outcome == Transition::<D, P, E>::Finished(
            patch_state(world.patch, world.applied),
        ),
        run::<D, P, E>(model, world).asked == seq![
            model,
            model.at(Phase::PatchApplied(world.patch)),
        ],
        shown(run::<D, P, E>(model, world).asked) == model.progress(),
{
    let m1 = model.at(Phase::PatchApplied(world.patch));
    lemma_run_continue::<D, P, E>(model, world, m1);
    lemma_run_stop::<D, P, E>(m1, world);
    assert(seq![model] + seq![m1] =~= seq![model, m1]);
    lemma_shown_push(Seq::empty(), model);
    lemma_shown_push(seq![model], m1);
    assert(Seq::<ResolverModel<P>>::empty().push(model) =~= seq![model]);
    assert(seq![model].push(m1) =~= seq![model, m1]);
    assert(shown(seq![model, m1]) =~= model.progress());
}

/// A game that is not up to date decides alone. The resolver asks for the
/// comparison of the game and settles on the state of the game: whatever the
/// voices and the patch are like, nothing is asked about them. The progress
/// sink is shown the label of the game and no other.
pub proof fn theorem_game_decides<D, P, E>(
    game_path: String,
    voices: Seq<String>,
    servers: Seq<String>,
    world: World<D, P>,
)
    requires
        !(world.game is Latest),
    ensures
        game_state::<D, P>(world.game) is Some,
        run::<D, P, E>(ResolverModel::start(game_path, voices, servers), world).outcome
            == Transition::<D, P, E>::Finished(game_state::<D, P>(world.game)->0),
        run::<D, P, E>(ResolverModel::start(game_path, voices, servers), world).asked == seq![
            ResolverModel::<P>::start(game_path, voices, servers),
        ],
        shown(run::<D, P, E>(ResolverModel::start(game_path, voices, servers), world).asked)
            == seq![game_label()],
{
    let start = ResolverModel::<P>::start(game_path, voices, servers);
    lemma_run_stop::<D, P, E>(start, world);
    lemma_shown_push(Seq::empty(), start);
    assert(Seq::<ResolverModel<P>>::empty().push(start) =~= seq![start]);
    assert(shown(seq![start]) =~= seq![game_label()]);
}

/// With the game up to date, the first voice that is not settled decides:
/// an unknown locale aborts the resolution with that locale as configured,
/// and a package that is not up to date gives the state of that package. No
/// request is made about a later voice, and none about the patch. The
/// progress sink is shown the label of the game, the label that opens the
/// voices, and one label for each voice looked at, in their order.
pub proof fn theorem_voice_decides<D, P, E>(
    game_path: String,
    voices: Seq<String>,
    servers: Seq<String>,
    world: World<D, P>,
    deciding: int,
)
    requires
        world.game is Latest,
        world.voices.len() == voices.len(),
        world.deciding_voice(deciding),
    ensures
        run::<D, P, E>(ResolverModel::start(game_path, voices, servers), world).outcome
            == voice_outcome::<D, P, E>(voices[deciding], world.voices[deciding]),
        forall|k: int|
            0 <= k < run::<D, P, E>(
                ResolverModel::start(game_path, voices, servers),
                world,
            ).asked.len() ==> (#[trigger] run::<D, P, E>(
                ResolverModel::start(game_path, voices, servers),
                world,
            ).asked[k]).voice <= deciding && !run::<D, P, E>(
                ResolverModel::start(game_path, voices, servers),
                world,
            ).asked[k].phase.concerns_patch(),
        shown(run::<D, P, E>(ResolverModel::start(game_path, voices, servers), world).asked)
            == seq![game_label(), voices_label()] + voice_labels(world, 0, deciding)
            + deciding_label(world.voices[deciding]),
{
    let start = ResolverModel::<P>::start(game_path, voices, servers);
    let first = start.at_voice(0);
    lemma_run_continue::<D, P, E>(start, world, first);
    lemma_voices_until::<D, P, E>(first, world, deciding);
    let rest = run::<D, P, E>(first, world).asked;
    let asked = run::<D, P, E>(start, world).asked;
    lemma_shown_concat(seq![start], rest);
    lemma_shown_push(Seq::empty(), start);
    assert(Seq::<ResolverModel<P>>::empty().push(start) =~= seq![start]);
    assert(shown(seq![start]) =~= seq![game_label()]);
    assert(seq![game_label()] + (opening_label(0) + voice_labels(world, 0, deciding)
        + deciding_label(world.voices[deciding])) =~= seq![game_label(), voices_label()]
        + voice_labels(world, 0, deciding) + deciding_label(world.voices[deciding]));
    assert forall|k: int| 0 <= k < asked.len() implies (#[trigger] asked[k]).voice <= deciding
        && !asked[k].phase.concerns_patch() by {
        if k >= 1 {
            assert(asked[k] == rest[k - 1]);
        }
    }
}

/// With the game and every voice up to date and every locale known, the
/// patch decides: the game can be launched if the patch is applied, and else
/// the patch is on offer, the state carrying the very patch that was fetched.
/// The progress sink is shown each label once: that of the game, the one that
/// opens the voices, one for each voice in their order, and that of the
/// patch.
pub proof fn theorem_patch_decides<D, P, E>(
    game_path: String,
    voices: Seq<String>,
    servers: Seq<String>,
    world: World<D, P>,
)
    requires
        world.game is Latest,
        world.voices.len() == voices.len(),
        world.settled_from(0),
    ensures
        run::<D, P, E>(ResolverModel::start(game_path, voices, servers), world).outcome
            == Transition::<D, P, E>::Finished(patch_state(world.patch, world.applied)),
        shown(run::<D, P, E>(ResolverModel::start(game_path, voices, servers), world).asked)
            == seq![game_label(), voices_label()] + voice_labels(
            world,
            0,
            world.voices.len() as int,
        ) + seq![patch_label()],
{
    let start = ResolverModel::<P>::start(game_path, voices, servers);
    let first = start.at_voice(0);
    let rest = run::<D, P, E>(first, world).asked;
    let count = world.voices.len() as int;
    lemma_run_continue::<D, P, E>(start, world, first);
    lemma_shown_concat(seq![start], rest);
    lemma_shown_push(Seq::empty(), start);
    assert(Seq::<ResolverModel<P>>::empty().push(start) =~= seq![start]);
    assert(shown(seq![start]) =~= seq![game_label()]);
    if voices.len() > 0 {
        lemma_voices_settled::<D, P, E>(first, world);
        assert(seq![game_label()] + (opening_label(0) + voice_labels(world, 0, count) + seq![
            patch_label(),
        ]) =~= seq![game_label(), voices_label()] + voice_labels(world, 0, count) + seq![
            patch_label(),
        ]);
    } else {
        lemma_patch::<D, P, E>(first, world);
        assert(seq![game_label()] + first.progress() =~= seq![game_label(), voices_label()]
            + voice_labels(world, 0, count) + seq![patch_label()]);
    }
}

/// A failure aborts the resolution at once. Up to the first request that
/// ends in a failure the resolution goes as it would without failures; that
/// failure is its outcome, unchanged; and nothing is asked after it. Where
/// no request fails, the resolution is the one without failures.
pub proof fn theorem_failure_aborts<D, P, E>(
    model: ResolverModel<P>,
    world: World<D, P>,
    failure: spec_fn(ResolverModel<P>) -> Option<E>,
)
    requires
        model.wf(),
    ensures
        (forall|k: int|
            0 <= k < run::<D, P, E>(model, world).asked.len() ==> failure(
                #[trigger] run::<D, P, E>(model, world).asked[k],
            ) is None) ==> run_failing::<D, P, E>(model, world, failure) == run::<D, P, E>(
            model,
            world,
        ),
        forall|k: int| #[trigger]
            first_failure(run::<D, P, E>(model, world).asked, failure, k) ==> run_failing::<
                D,
                P,
                E,
            >(model, world, failure).outcome == Transition::<D, P, E>::Failed(
                ResolveError::Collaborator(failure(run::<D, P, E>(model, world).asked[k])->0),
            ) && run_failing::<D, P, E>(model, world, failure).asked == run::<D, P, E>(
                model,
                world,
            ).asked.take(k + 1),
    decreases model.remaining(),
{
    let clean = run::<D, P, E>(model, world);
    let failing = run_failing::<D, P, E>(model, world, failure);
    lemma_step_progress(model, world.answer::<E>(model));
    assert(clean.asked[0] == model);
    match failure(model) {
        Some(failed) => {
            assert(failing.asked =~= clean.asked.take(1));
            assert forall|k: int| #[trigger]
                first_failure(clean.asked, failure, k) implies k == 0 by {
                if k > 0 {
                    assert(failure(clean.asked[0]) is None);
                }
            }
        },
        None => {
            match model.step(world.answer::<E>(model)) {
                Transition::Continue(next) => {
                    let rest = run::<D, P, E>(next, world);
                    theorem_failure_aborts::<D, P, E>(next, world, failure);
                    assert(clean.asked =~= seq![model] + rest.asked);
                    assert forall|k: int|
                        0 <= k < rest.asked.len() implies rest.asked[k] == clean.asked[k + 1] by {}
                    if forall|k: int|
                        0 <= k < clean.asked.len() ==> failure(#[trigger] clean.asked[k]) is None {
                        assert forall|k: int| 0 <= k < rest.asked.len() implies failure(
                            #[trigger] rest.asked[k],
                        ) is None by {
                            assert(failure(clean.asked[k + 1]) is None);
                        }
                    }
                    assert forall|k: int| #[trigger]
                        first_failure(clean.asked, failure, k) implies failing.outcome
                        == Transition::<D, P, E>::Failed(
                        ResolveError::Collaborator(failure(clean.asked[k])->0),
                    ) && failing.asked == clean.asked.take(k + 1) by {
                        assert(k > 0);
                        assert forall|j: int| 0 <= j < k - 1 implies failure(
                            #[trigger] rest.asked[j],
                        ) is None by {
                            assert(failure(clean.asked[j + 1]) is None);
                        }
                        assert(first_failure(rest.asked, failure, k - 1));
                        assert(seq![model] + rest.asked.take(k) =~= clean.asked.take(k + 1));
                    }
                },
                _ => {
                    assert forall|k: int| #[trigger]
                        first_failure(clean.asked, failure, k) implies false by {}
                },
            }
        },
    }
}

/// Every resolution settles: a run never ends with the resolver still
/// waiting, it makes no more requests than the bound says, and a state it
/// settles on carries the kind of comparison that it names.
pub proof fn theorem_run_settles<D, P, E>(model: ResolverModel<P>, world: World<D, P>)
    requires
        model.wf(),
    ensures
        !(run::<D, P, E>(model, world).outcome is Continue),
        1 <= run::<D, P, E>(model, world).asked.len() <= model.remaining(),
        run::<D, P, E>(model, world).outcome matches Transition::Finished(state) ==> state.wf(),
    decreases model.remaining(),
{
    lemma_step_progress(model, world.answer::<E>(model));
    match model.step(world.answer::<E>(model)) {
        Transition::Continue(next) => {
            theorem_run_settles::<D, P, E>(next, world);
            lemma_run_continue::<D, P, E>(model, world, next);
        },
        _ => {
            lemma_run_stop::<D, P, E>(model, world);
        },
    }
}

} // verus!
