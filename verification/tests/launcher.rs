use anime_launcher::config::Config;
use anime_launcher::launcher::LauncherState;
use anime_launcher::launcher::Next;
use anime_launcher::launcher::Request;
use anime_launcher::launcher::ResolveError;
use anime_launcher::launcher::Resolver;
use anime_launcher::launcher::Response;
use anime_launcher::launcher::VersionDiff;

type Diff = VersionDiff<&'static str>;
type State = LauncherState<&'static str, u32>;
type Answer = Response<&'static str, u32, String>;

/// What the collaborators say about one voice.
struct Voice {
    name: Option<&'static str>,
    installed: bool,
    diff: Diff,
}

/// What the collaborators say, and how often each of them was asked.
struct World {
    game: Diff,
    voices: Vec<Voice>,
    patch: u32,
    applied: bool,
    fail_at: Option<usize>,
    asked: Vec<String>,
    labels: Vec<String>,
    game_paths: Vec<String>,
    locales: Vec<String>,
    servers: Vec<Vec<String>>,
    voice: Option<usize>,
}

impl World {
    fn new(game: Diff, voices: Vec<Voice>, patch: u32, applied: bool) -> World {
        World {
            game,
            voices,
            patch,
            applied,
            fail_at: None,
            asked: vec![],
            labels: vec![],
            game_paths: vec![],
            locales: vec![],
            servers: vec![],
            voice: None,
        }
    }

    fn count(&self, kind: &str) -> usize {
        self.asked.iter().filter(|asked| asked.as_str() == kind).count()
    }

    fn current(&self) -> &Voice {
        &self.voices[self.voice.unwrap()]
    }

    fn answer(&mut self, request: Request) -> Answer {
        if self.fail_at == Some(self.asked.len()) {
            self.asked.push("failed".to_string());
            return Response::Failed(format!("collaborator failed at request {}", self.asked.len() - 1));
        }
        match request {
            Request::GameDiff { game_path } => {
                self.asked.push("game diff".to_string());
                self.game_paths.push(game_path);
                Response::Diff(self.game.clone())
            }
            Request::VoiceLocale { code } => {
                self.asked.push("voice locale".to_string());
                self.locales.push(code);
                self.voice = Some(self.voice.map_or(0, |voice| voice + 1));
                Response::Locale(self.current().name.map(|name| name.to_string()))
            }
            Request::VoicePackage => {
                self.asked.push("voice package".to_string());
                Response::Ready
            }
            Request::VoiceInstalled { game_path } => {
                self.asked.push("voice installed".to_string());
                self.game_paths.push(game_path);
                Response::Installed(self.current().installed)
            }
            Request::InstalledVoicePackage { game_path } => {
                self.asked.push("installed voice package".to_string());
                self.game_paths.push(game_path);
                Response::Ready
            }
            Request::VoiceDiff => {
                self.asked.push("voice diff".to_string());
                Response::Diff(self.current().diff.clone())
            }
            Request::Patch { servers } => {
                self.asked.push("patch".to_string());
                self.servers.push(servers);
                Response::Patch(self.patch)
            }
            Request::PatchApplied { game_path } => {
                self.asked.push("patch applied".to_string());
                self.game_paths.push(game_path);
                Response::Applied(self.applied)
            }
        }
    }
}

fn config(voices: &[&str]) -> Config {
    let mut config = Config::default_in(Some("/home/user/launcher"));
    config.game.path = "/games/the-game".to_string();
    config.game.voices = voices.iter().map(|voice| voice.to_string()).collect();
    config.patch.servers = vec!["https://first.example".to_string(), "https://second.example".to_string()];
    config
}

fn resolve(config: &Config, world: &mut World) -> Result<State, ResolveError<String>> {
    let mut resolver: Resolver<u32> = Resolver::new(config);
    for _ in 0..(5 * config.game.voices.len() + 3) {
        world.labels.extend(resolver.progress());
        let request = resolver.request();
        let response = world.answer(request);
        match resolver.advance(response) {
            Next::Continue(next) => resolver = next,
            Next::Finished(state) => return Ok(state),
            Next::Failed(error) => return Err(error),
        }
    }
    panic!("the resolver did not settle within its bound");
}

fn latest(name: &'static str) -> Voice {
    Voice { name: Some(name), installed: true, diff: VersionDiff::Latest("voice latest") }
}

#[test]
fn game_not_installed_asks_nothing_else() {
    let voices = vec![
        Voice { name: None, installed: false, diff: VersionDiff::Outdated("voice") },
        latest("Japanese"),
    ];
    for applied in [false, true] {
        let mut world = World::new(VersionDiff::NotInstalled("game 3.0"), voices_like(&voices), 7, applied);
        let state = resolve(&config(&["xx-yy", "ja-jp"]), &mut world).unwrap();
        assert!(matches!(state, LauncherState::GameNotInstalled(VersionDiff::NotInstalled("game 3.0"))));
        assert_eq!(world.asked, vec!["game diff"]);
        assert_eq!(world.labels, vec!["Updating game info..."]);
        assert_eq!(world.game_paths, vec!["/games/the-game"]);
        assert_eq!(world.count("voice locale") + world.count("voice diff"), 0);
        assert_eq!(world.count("patch") + world.count("patch applied"), 0);
    }
}

fn voices_like(voices: &[Voice]) -> Vec<Voice> {
    voices
        .iter()
        .map(|voice| Voice { name: voice.name, installed: voice.installed, diff: voice.diff.clone() })
        .collect()
}

#[test]
fn game_update_and_outdated_game_settle_at_once() {
    let mut world = World::new(VersionDiff::Diff("2.8 -> 3.0"), vec![latest("English")], 7, true);
    let state = resolve(&config(&["en-us"]), &mut world).unwrap();
    assert!(matches!(state, LauncherState::GameUpdateAvailable(VersionDiff::Diff("2.8 -> 3.0"))));
    assert_eq!(world.asked, vec!["game diff"]);

    let mut world = World::new(VersionDiff::Outdated("1.0"), vec![latest("English")], 7, true);
    let state = resolve(&config(&["en-us"]), &mut world).unwrap();
    assert!(matches!(state, LauncherState::GameOutdated(VersionDiff::Outdated("1.0"))));
    assert_eq!(world.asked, vec!["game diff"]);
}

#[test]
fn second_voice_update_stops_before_the_third() {
    let voices = vec![
        Voice { name: Some("English"), installed: true, diff: VersionDiff::Latest("en") },
        Voice { name: Some("Japanese"), installed: true, diff: VersionDiff::Diff("ja 2.8 -> 3.0") },
        Voice { name: Some("Korean"), installed: false, diff: VersionDiff::NotInstalled("ko") },
    ];
    let mut world = World::new(VersionDiff::Latest("game"), voices, 7, false);
    let state = resolve(&config(&["en-us", "ja-jp", "ko-kr"]), &mut world).unwrap();
    assert!(matches!(state, LauncherState::VoiceUpdateAvailable(VersionDiff::Diff("ja 2.8 -> 3.0"))));
    assert_eq!(world.locales, vec!["en-us", "ja-jp"]);
    assert_eq!(world.count("voice diff"), 2);
    assert_eq!(world.voice, Some(1));
    assert_eq!(world.count("patch") + world.count("patch applied"), 0);
    assert_eq!(
        world.labels,
        vec![
            "Updating game info...",
            "Updating voice info...",
            "Updating voice info (English)...",
            "Updating voice info (Japanese)...",
        ]
    );
}

#[test]
fn voice_states_follow_the_comparison() {
    let mut world = World::new(
        VersionDiff::Latest("game"),
        vec![Voice { name: Some("English"), installed: true, diff: VersionDiff::Outdated("en 1.0") }],
        7,
        true,
    );
    let state = resolve(&config(&["en-us"]), &mut world).unwrap();
    assert!(matches!(state, LauncherState::VoiceOutdated(VersionDiff::Outdated("en 1.0"))));

    let mut world = World::new(
        VersionDiff::Latest("game"),
        vec![Voice { name: Some("English"), installed: false, diff: VersionDiff::NotInstalled("en") }],
        7,
        true,
    );
    let state = resolve(&config(&["en-us"]), &mut world).unwrap();
    assert!(matches!(state, LauncherState::VoiceNotInstalled(VersionDiff::NotInstalled("en"))));
}

#[test]
fn installed_voice_is_loaded_from_the_game_directory() {
    let mut world = World::new(VersionDiff::Latest("game"), vec![latest("English")], 7, true);
    resolve(&config(&["en-us"]), &mut world).unwrap();
    assert_eq!(
        world.asked,
        vec![
            "game diff",
            "voice locale",
            "voice package",
            "voice installed",
            "installed voice package",
            "voice diff",
            "patch",
            "patch applied",
        ]
    );
    assert_eq!(
        world.labels,
        vec![
            "Updating game info...",
            "Updating voice info...",
            "Updating voice info (English)...",
            "Updating patch info...",
        ]
    );
    assert_eq!(
        world.game_paths,
        vec!["/games/the-game", "/games/the-game", "/games/the-game", "/games/the-game"]
    );

    let mut world = World::new(
        VersionDiff::Latest("game"),
        vec![Voice { name: Some("English"), installed: false, diff: VersionDiff::Latest("en") }],
        7,
        true,
    );
    resolve(&config(&["en-us"]), &mut world).unwrap();
    assert_eq!(world.count("voice installed"), 1);
    assert_eq!(world.count("installed voice package"), 0);
    assert_eq!(world.count("voice diff"), 1);
}

#[test]
fn applied_patch_launches() {
    let voices = vec![latest("English"), latest("Japanese"), latest("Korean")];
    let mut world = World::new(VersionDiff::Latest("game"), voices, 7, true);
    let state = resolve(&config(&["en-us", "ja-jp", "ko-kr"]), &mut world).unwrap();
    assert!(matches!(state, LauncherState::Launch));
    assert_eq!(world.count("voice diff"), 3);
    assert_eq!(world.count("patch"), 1);
    assert_eq!(world.count("patch applied"), 1);
    assert_eq!(
        world.servers,
        vec![vec!["https://first.example".to_string(), "https://second.example".to_string()]]
    );
    assert_eq!(world.labels.last().unwrap(), "Updating patch info...");
}

#[test]
fn unapplied_patch_is_offered_with_its_descriptor() {
    let voices = vec![latest("English")];
    let mut world = World::new(VersionDiff::Latest("game"), voices, 4711, false);
    let state = resolve(&config(&["en-us"]), &mut world).unwrap();
    assert!(matches!(state, LauncherState::PatchAvailable(4711)));
}

#[test]
fn no_voices_go_straight_to_the_patch() {
    let mut world = World::new(VersionDiff::Latest("game"), vec![], 7, false);
    let state = resolve(&config(&[]), &mut world).unwrap();
    assert!(matches!(state, LauncherState::PatchAvailable(7)));
    assert_eq!(world.asked, vec!["game diff", "patch", "patch applied"]);
    assert_eq!(
        world.labels,
        vec!["Updating game info...", "Updating voice info...", "Updating patch info..."]
    );
}

#[test]
fn unknown_voice_locale_aborts() {
    let voices = vec![
        latest("English"),
        Voice { name: None, installed: false, diff: VersionDiff::Latest("never asked") },
        latest("Korean"),
    ];
    let mut world = World::new(VersionDiff::Latest("game"), voices, 7, true);
    let error = resolve(&config(&["en-us", "klingon", "ko-kr"]), &mut world).unwrap_err();
    match error {
        ResolveError::UnknownVoiceLocale(locale) => assert_eq!(locale, "klingon"),
        other => panic!("unexpected error {:?}", other),
    }
    assert_eq!(world.locales, vec!["en-us", "klingon"]);
    assert_eq!(world.count("voice diff"), 1);
    assert_eq!(world.count("patch"), 0);
}

#[test]
fn collaborator_failure_aborts_with_that_failure() {
    for fail_at in 0..8 {
        let mut world = World::new(VersionDiff::Latest("game"), vec![latest("English")], 7, true);
        world.fail_at = Some(fail_at);
        let error = resolve(&config(&["en-us"]), &mut world).unwrap_err();
        match error {
            ResolveError::Collaborator(failure) => {
                assert_eq!(failure, format!("collaborator failed at request {}", fail_at))
            }
            other => panic!("unexpected error {:?}", other),
        }
        assert_eq!(world.asked.len(), fail_at + 1);
    }
}

#[test]
fn answer_that_does_not_fit_is_refused() {
    let resolver: Resolver<u32> = Resolver::new(&config(&["en-us"]));
    let answer: Answer = Response::Applied(true);
    assert!(matches!(resolver.advance(answer), Next::Failed(ResolveError::UnexpectedResponse)));

    let resolver: Resolver<u32> = Resolver::new(&config(&["en-us"]));
    assert!(matches!(resolver.request(), Request::GameDiff { .. }));
    let answer: Answer = Response::Diff(VersionDiff::Latest("game"));
    let resolver = match resolver.advance(answer) {
        Next::Continue(next) => next,
        _ => panic!("the resolver should go on"),
    };
    match resolver.request() {
        Request::VoiceLocale { code } => assert_eq!(code, "en-us"),
        other => panic!("unexpected request {:?}", other),
    }
    let answer: Answer = Response::Patch(1);
    assert!(matches!(resolver.advance(answer), Next::Failed(ResolveError::UnexpectedResponse)));
}

#[test]
fn states_of_single_comparisons() {
    assert!(State::for_game(VersionDiff::Latest("g")).is_none());
    assert!(matches!(State::for_game(VersionDiff::Diff("g")), Some(LauncherState::GameUpdateAvailable(VersionDiff::Diff("g")))));
    assert!(matches!(State::for_game(VersionDiff::Outdated("g")), Some(LauncherState::GameOutdated(VersionDiff::Outdated("g")))));
    assert!(matches!(State::for_game(VersionDiff::NotInstalled("g")), Some(LauncherState::GameNotInstalled(VersionDiff::NotInstalled("g")))));
    assert!(State::for_voice(VersionDiff::Latest("v")).is_none());
    assert!(matches!(State::for_voice(VersionDiff::Diff("v")), Some(LauncherState::VoiceUpdateAvailable(VersionDiff::Diff("v")))));
    assert!(matches!(State::for_voice(VersionDiff::Outdated("v")), Some(LauncherState::VoiceOutdated(VersionDiff::Outdated("v")))));
    assert!(matches!(State::for_voice(VersionDiff::NotInstalled("v")), Some(LauncherState::VoiceNotInstalled(VersionDiff::NotInstalled("v")))));
    assert!(matches!(State::for_patch(3, true), LauncherState::Launch));
    assert!(matches!(State::for_patch(3, false), LauncherState::PatchAvailable(3)));
    assert!(matches!(State::default(), LauncherState::Launch));
}

#[test]
fn comparisons_tell_their_verdict_and_details() {
    assert!(Diff::Latest("1.0").is_latest());
    assert!(!Diff::Diff("1.0").is_latest());
    assert!(!Diff::Outdated("1.0").is_latest());
    assert!(!Diff::NotInstalled("1.0").is_latest());
    assert_eq!(*Diff::Latest("a").details(), "a");
    assert_eq!(*Diff::Diff("b").details(), "b");
    assert_eq!(*Diff::Outdated("c").details(), "c");
    assert_eq!(*Diff::NotInstalled("d").details(), "d");
}

#[test]
fn resolver_errors_in_words() {
    let unknown: ResolveError<String> = ResolveError::UnknownVoiceLocale("klingon".to_string());
    assert_eq!(
        unknown.describe(),
        Some("Incorrect voice locale \"klingon\" specified in the config".to_string())
    );
    let unexpected: ResolveError<String> = ResolveError::UnexpectedResponse;
    assert_eq!(unexpected.describe(), Some("The answer does not fit the request".to_string()));
    let failed: ResolveError<String> = ResolveError::Collaborator("timed out".to_string());
    assert_eq!(failed.describe(), None);
}

#[test]
fn comparisons_hand_out_their_details() {
    assert_eq!(Diff::Latest("a").into_details(), "a");
    assert_eq!(Diff::Diff("b").into_details(), "b");
    assert_eq!(Diff::Outdated("c").into_details(), "c");
    assert_eq!(Diff::NotInstalled("d").into_details(), "d");
}

#[test]
fn labels_are_shown_once_each() {
    let voices = vec![
        Voice { name: Some("English"), installed: false, diff: VersionDiff::Latest("en") },
        Voice { name: Some("Japanese"), installed: true, diff: VersionDiff::Latest("ja") },
    ];
    let mut world = World::new(VersionDiff::Latest("game"), voices, 7, true);
    resolve(&config(&["en-us", "ja-jp"]), &mut world).unwrap();
    assert_eq!(
        world.labels,
        vec![
            "Updating game info...",
            "Updating voice info...",
            "Updating voice info (English)...",
            "Updating voice info (Japanese)...",
            "Updating patch info...",
        ]
    );
    assert_eq!(world.asked.len(), 3 + 4 + 5);
}

#[test]
fn unknown_first_locale_shows_no_voice_label() {
    let voices = vec![Voice { name: None, installed: false, diff: VersionDiff::Latest("never asked") }];
    let mut world = World::new(VersionDiff::Latest("game"), voices, 7, true);
    assert!(resolve(&config(&["klingon"]), &mut world).is_err());
    assert_eq!(world.labels, vec!["Updating game info...", "Updating voice info..."]);
    assert_eq!(world.asked, vec!["game diff", "voice locale"]);
}

#[test]
fn resolver_settles_within_its_bound() {
    let names = ["en-us", "ja-jp", "ko-kr", "zh-cn", "en-us"];
    for count in 0..=names.len() {
        for installed in [false, true] {
            let voices: Vec<Voice> = (0..count)
                .map(|_| Voice { name: Some("Some"), installed, diff: VersionDiff::Latest("voice") })
                .collect();
            let mut world = World::new(VersionDiff::Latest("game"), voices, 7, true);
            let state = resolve(&config(&names[..count]), &mut world);
            assert!(matches!(state, Ok(LauncherState::Launch)));
            let per_voice = if installed { 5 } else { 4 };
            assert_eq!(world.asked.len(), 1 + per_voice * count + 2);
            assert!(world.asked.len() <= 5 * count + 3);
        }
    }
}
