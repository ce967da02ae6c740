use anime_launcher::components::ComponentsListGroup;
use anime_launcher::components::ComponentsListPattern;
use anime_launcher::components::ComponentsListVersion;
use anime_launcher::dxvk;
use anime_launcher::wine;
use anime_launcher::wine::find_version;

fn wine_version(name: &str, title: &str, uri: &str, recommended: bool) -> wine::Version {
    wine::Version {
        name: name.to_string(),
        title: title.to_string(),
        uri: uri.to_string(),
        recommended,
    }
}

fn dxvk_version(name: &str, uri: &str, recommended: bool) -> dxvk::Version {
    dxvk::Version { name: name.to_string(), uri: uri.to_string(), recommended }
}

#[test]
fn find_version_scans_groups_then_versions() {
    let groups = vec![
        wine::Group { name: "A".to_string(), versions: vec![] },
        wine::Group {
            name: "B".to_string(),
            versions: vec![
                wine_version("one", "One", "uri-b-one", true),
                wine_version("two", "Two", "uri-b-two", false),
                wine_version("one", "One again", "uri-b-one-again", false),
            ],
        },
        wine::Group {
            name: "C".to_string(),
            versions: vec![
                wine_version("two", "Two in C", "uri-c-two", false),
                wine_version("three", "Three", "uri-c-three", false),
            ],
        },
    ];
    assert_eq!(find_version(&groups, &"one".to_string()).unwrap().uri, "uri-b-one");
    assert_eq!(find_version(&groups, &"two".to_string()).unwrap().uri, "uri-b-two");
    assert_eq!(find_version(&groups, &"three".to_string()).unwrap().uri, "uri-c-three");
    assert!(find_version(&groups, &"four".to_string()).is_none());
    assert!(find_version(&groups, &"".to_string()).is_none());
    assert!(find_version(&vec![], &"one".to_string()).is_none());
}

#[test]
fn version_clone_keeps_every_field() {
    let version = wine_version("one", "One", "uri", true);
    let copy = version.clone();
    assert_eq!(copy.name, "one");
    assert_eq!(copy.title, "One");
    assert_eq!(copy.uri, "uri");
    assert!(copy.recommended);
}

#[test]
fn wine_versions_are_listed_under_their_title() {
    let listed = ComponentsListVersion::from(wine_version("lutris-7.2", "Lutris 7.2", "https://w/7.2", true));
    assert_eq!(listed.title, "Lutris 7.2");
    assert_eq!(listed.uri, "https://w/7.2");
    assert!(listed.recommended);
}

#[test]
fn dxvk_versions_are_listed_under_their_name() {
    let listed = ComponentsListVersion::from(dxvk_version("dxvk-1.10", "https://d/1.10", false));
    assert_eq!(listed.title, "dxvk-1.10");
    assert_eq!(listed.uri, "https://d/1.10");
    assert!(!listed.recommended);
}

#[test]
fn groups_are_listed_with_their_versions_in_order() {
    let group = wine::Group {
        name: "Wine-GE".to_string(),
        versions: vec![
            wine_version("b", "Title B", "uri-b", false),
            wine_version("a", "Title A", "uri-a", true),
            wine_version("c", "Title C", "uri-c", false),
        ],
    };
    let listed: ComponentsListGroup = group.into();
    assert_eq!(listed.title, "Wine-GE");
    let titles: Vec<&str> = listed.versions.iter().map(|version| version.title.as_str()).collect();
    assert_eq!(titles, vec!["Title B", "Title A", "Title C"]);
    let uris: Vec<&str> = listed.versions.iter().map(|version| version.uri.as_str()).collect();
    assert_eq!(uris, vec!["uri-b", "uri-a", "uri-c"]);
    assert!(listed.versions[1].recommended);

    let group = dxvk::Group {
        name: "Vanilla".to_string(),
        versions: vec![dxvk_version("2.0", "uri-2", true), dxvk_version("1.10", "uri-1", false)],
    };
    let listed = ComponentsListGroup::from(group);
    assert_eq!(listed.title, "Vanilla");
    let titles: Vec<&str> = listed.versions.iter().map(|version| version.title.as_str()).collect();
    assert_eq!(titles, vec!["2.0", "1.10"]);

    let empty = ComponentsListGroup::from(wine::Group { name: "None".to_string(), versions: vec![] });
    assert!(empty.versions.is_empty());
    let pattern = ComponentsListPattern { download_folder: "/runners".to_string(), groups: vec![empty] };
    assert_eq!(pattern.groups.len(), 1);
}
