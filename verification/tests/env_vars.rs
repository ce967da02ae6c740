use anime_launcher::env_vars::EnvVars;

fn s(text: &str) -> String {
    text.to_string()
}

fn pairs(vars: &EnvVars) -> Vec<(String, String)> {
    let mut all = vars.to_vec();
    all.sort();
    all
}

#[test]
fn new_is_empty() {
    let vars = EnvVars::new();
    assert!(vars.is_empty());
    assert_eq!(vars.len(), 0);
    assert!(vars.to_vec().is_empty());
    assert_eq!(vars.get("A"), None);
}

#[test]
fn insert_binds_and_replaces() {
    let mut vars = EnvVars::new();
    vars.insert(s("A"), s("1"));
    vars.insert(s("B"), s("2"));
    assert_eq!(vars.len(), 2);
    assert_eq!(vars.get("A"), Some(&s("1")));
    assert_eq!(vars.get("B"), Some(&s("2")));
    vars.insert(s("A"), s("3"));
    assert_eq!(vars.len(), 2);
    assert_eq!(vars.get("A"), Some(&s("3")));
    assert_eq!(pairs(&vars), vec![(s("A"), s("3")), (s("B"), s("2"))]);
    assert!(vars.contains_key("B"));
    assert!(!vars.contains_key("C"));
    assert!(!vars.is_empty());
}

#[test]
fn overlay_prefers_the_later_binding() {
    let mut base = EnvVars::new();
    base.insert(s("A"), s("1"));
    base.insert(s("B"), s("2"));
    let mut over = EnvVars::new();
    over.insert(s("B"), s("20"));
    over.insert(s("C"), s("30"));
    base.overlay(&over);
    assert_eq!(
        pairs(&base),
        vec![(s("A"), s("1")), (s("B"), s("20")), (s("C"), s("30"))]
    );
    assert_eq!(pairs(&over), vec![(s("B"), s("20")), (s("C"), s("30"))]);
}

#[test]
fn clone_keeps_every_binding() {
    let mut vars = EnvVars::new();
    vars.insert(s("A"), s("1"));
    let copy = vars.clone();
    vars.insert(s("A"), s("2"));
    assert_eq!(copy.get("A"), Some(&s("1")));
    assert_eq!(vars.get("A"), Some(&s("2")));
}

#[test]
fn from_vec_keeps_the_last_binding_of_a_name() {
    let vars = EnvVars::from_vec(vec![
        (s("A"), s("1")),
        (s("B"), s("2")),
        (s("A"), s("3")),
        (s("C"), s("4")),
        (s("B"), s("5")),
    ]);
    assert_eq!(pairs(&vars), vec![(s("A"), s("3")), (s("B"), s("5")), (s("C"), s("4"))]);
    assert_eq!(vars.len(), 3);
    assert!(EnvVars::from_vec(vec![]).is_empty());
}

#[test]
fn pairs_round_trip() {
    let mut vars = EnvVars::new();
    vars.insert(s("DXVK_HUD"), s("fps"));
    vars.insert(s("LANG"), s("en_US.UTF-8"));
    vars.insert(s("EMPTY"), s(""));
    let again = EnvVars::from_vec(vars.to_vec());
    assert_eq!(pairs(&again), pairs(&vars));
    assert_eq!(again.get("EMPTY"), Some(&s("")));
}

#[test]
fn names_are_told_apart_exactly() {
    let mut vars = EnvVars::new();
    vars.insert(s("path"), s("lower"));
    vars.insert(s("PATH"), s("upper"));
    vars.insert(s("PATH "), s("spaced"));
    vars.insert(s(""), s("unnamed"));
    assert_eq!(vars.len(), 4);
    assert_eq!(vars.get("path"), Some(&s("lower")));
    assert_eq!(vars.get("PATH"), Some(&s("upper")));
    assert_eq!(vars.get("PATH "), Some(&s("spaced")));
    assert_eq!(vars.get(""), Some(&s("unnamed")));
    assert_eq!(vars.get("Path"), None);
}
