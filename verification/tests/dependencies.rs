use bevy_lint::dependencies::{
    bevy_dependents, check, get_version_from_toml, has_distinct_versions, lint_with_target_version, local_package,
    minimal_lint, mismatch_findings, resolved_bevy_versions, toml_span, ByteRange, DependencyInfo,
    DuplicateReport, PackageInfo, ResolveNode, TomlDependency, TomlValue, VersionError,
};
use bevy_lint::expr::Span;

fn text(s: &str) -> TomlValue {
    TomlValue::String(s.to_string())
}

fn table(entries: Vec<(&str, TomlValue)>) -> TomlValue {
    TomlValue::Table(entries.into_iter().map(|(k, v)| (k.to_string(), v)).collect())
}

fn dep(name: &str, req: &str) -> DependencyInfo {
    DependencyInfo { name: name.to_string(), req: req.to_string() }
}

fn pkg(name: &str, deps: Vec<DependencyInfo>) -> PackageInfo {
    PackageInfo { name: name.to_string(), dependencies: deps }
}

fn toml_dep(name: &str, start: usize, end: usize, value: TomlValue) -> TomlDependency {
    TomlDependency { name: name.to_string(), range: ByteRange { start, end }, value }
}

fn node(id: &str, deps: &[&str]) -> ResolveNode {
    ResolveNode { id: id.to_string(), dependencies: deps.iter().map(|d| d.to_string()).collect() }
}

#[test]
fn exact_versions_are_read_from_strings_and_tables() {
    let v = get_version_from_toml(&text("0.15.1")).ok().unwrap();
    assert_eq!(v.text(), "0.15.1");
    let v = get_version_from_toml(&table(vec![("features", TomlValue::Other), ("version", text("0.14.2"))])).ok().unwrap();
    assert_eq!(v.text(), "0.14.2");
    let v = get_version_from_toml(&text("1.2.3-rc.1+build.5")).ok().unwrap();
    assert_eq!(v.text(), "1.2.3-rc.1+build.5");
}

#[test]
fn version_ranges_and_other_entries_are_errors() {
    assert!(matches!(get_version_from_toml(&text("0.15")), Err(VersionError::InvalidVersion)));
    assert!(matches!(get_version_from_toml(&text(">=0.15")), Err(VersionError::InvalidVersion)));
    assert!(matches!(get_version_from_toml(&text("")), Err(VersionError::InvalidVersion)));
    assert!(matches!(get_version_from_toml(&table(vec![("git", text("https://example.com"))])), Err(VersionError::MissingVersionField)));
    assert!(matches!(get_version_from_toml(&table(vec![("version", TomlValue::Other)])), Err(VersionError::MissingVersionField)));
    assert!(matches!(get_version_from_toml(&TomlValue::Other), Err(VersionError::UnexpectedFormat)));
    assert_eq!(VersionError::MissingVersionField.message(), "The 'version' field is required.");
}

#[test]
fn toml_spans_are_offset_by_the_file_start() {
    assert_eq!(toml_span(ByteRange { start: 3, end: 9 }, 100), Span { lo: 103, hi: 109 });
}

#[test]
fn bevy_dependents_keep_the_last_dependency_per_package() {
    let pkgs = vec![
        pkg("my_game", vec![dep("bevy", "^0.15")]),
        pkg("plugin_a", vec![dep("serde", "^1"), dep("bevy", "^0.14")]),
        pkg("plugin_b", vec![dep("serde", "^1")]),
        pkg("plugin_a", vec![dep("bevy", "^0.13")]),
        pkg("plugin_c", vec![dep("bevy", "^0.15")]),
    ];
    let found = bevy_dependents(&pkgs, "my_game");
    assert_eq!(found, vec![(3, 0), (4, 0)]);
}

#[test]
fn dependents_that_need_another_bevy_are_reported() {
    let deps = vec![
        toml_dep("bevy", 10, 18, text("0.15.0")),
        toml_dep("plugin_a", 30, 35, text("0.3")),
    ];
    let pkgs = vec![
        pkg("my_game", vec![dep("bevy", "^0.15")]),
        pkg("plugin_a", vec![dep("bevy", "^0.14")]),
        pkg("plugin_c", vec![dep("bevy", "^0.15")]),
        pkg("plugin_d", vec![dep("bevy", "^0.13")]),
    ];
    let dependents = bevy_dependents(&pkgs, "my_game");
    let found = lint_with_target_version(&deps, &deps[0], 1000, &pkgs, &dependents);
    assert_eq!(found.len(), 1);
    assert_eq!(found[0].span, Span { lo: 1030, hi: 1035 });
    assert_eq!(found[0].help_span, Span { lo: 1010, hi: 1018 });
    assert_eq!(found[0].help, "expected all crates to use `bevy` 0.15.0, but `plugin_a` uses `bevy` ^0.14");
}

#[test]
fn a_version_range_for_bevy_reports_nothing() {
    let deps = vec![toml_dep("bevy", 10, 16, text("0.15")), toml_dep("plugin_a", 30, 35, text("0.3"))];
    let pkgs = vec![pkg("plugin_a", vec![dep("bevy", "^0.14")])];
    let dependents = bevy_dependents(&pkgs, "my_game");
    assert!(lint_with_target_version(&deps, &deps[0], 0, &pkgs, &dependents).is_empty());
}

#[test]
fn mismatch_findings_follow_the_answers() {
    let deps = vec![toml_dep("a", 1, 2, text("1")), toml_dep("b", 3, 4, text("1"))];
    let answers = vec![
        ("a".to_string(), "^1".to_string(), false),
        ("b".to_string(), "^2".to_string(), true),
        ("c".to_string(), "^3".to_string(), false),
    ];
    let found = mismatch_findings(&deps, ByteRange { start: 5, end: 6 }, 0, &answers, "2.0.0");
    assert_eq!(found.len(), 1);
    assert_eq!(found[0].span, Span { lo: 1, hi: 2 });
    assert_eq!(found[0].help, "expected all crates to use `bevy` 2.0.0, but `a` uses `bevy` ^1");
}

const REGISTRY: &str = "registry+https://github.com/rust-lang/crates.io-index#";

#[test]
fn resolved_versions_come_from_local_ids_and_bevy_dependencies() {
    let nodes = vec![
        node("file:///path/to/my-package#0.1.0", &[]),
        node(&format!("{REGISTRY}plugin_a@0.3.0"), &[&format!("{REGISTRY}bevy@0.14.2"), &format!("{REGISTRY}serde@1.0.0"), &format!("{REGISTRY}bevy_ecs@0.14.1")]),
        node(&format!("{REGISTRY}serde@1.0.0"), &[]),
    ];
    let names = vec!["plugin_a".to_string()];
    let versions = resolved_bevy_versions(&nodes, &names);
    assert_eq!(versions, vec!["0.14.2", "0.14.1"]);
    assert!(minimal_lint(&nodes, &names));
}

#[test]
fn only_local_bevy_packages_count() {
    let nodes = vec![
        node("file:///home/u/game#0.1.0", &[]),
        node("file:///home/u/forks/bevy#0.15.0", &[]),
        node("file:///home/u/forks/renderer#bevy_render@0.15.1", &[]),
        node("file:///home/u/tools#helper@0.2.0", &[]),
    ];
    let versions = resolved_bevy_versions(&nodes, &vec![]);
    assert_eq!(versions, vec!["0.15.0", "0.15.1"]);
    assert_eq!(local_package("file:///home/u/game#0.1.0"), Some(("game", "0.1.0")));
    assert_eq!(local_package("file:///home/u/tools#helper@0.2.0"), Some(("helper", "0.2.0")));
    assert_eq!(local_package("file:///home/u/game"), None);
}

#[test]
fn the_project_itself_is_no_bevy_version() {
    // One bevy version is resolved; the project's own 0.1.0 does not count.
    let nodes = vec![
        node("file:///home/u/game#0.1.0", &[]),
        node(
            &format!("{REGISTRY}leafwing-input-manager@0.15.0"),
            &[&format!("{REGISTRY}bevy@0.14.2")],
        ),
    ];
    assert!(!minimal_lint(&nodes, &vec!["leafwing-input-manager".to_string()]));
}

#[test]
fn a_single_resolved_version_is_not_reported() {
    let nodes = vec![node(&format!("{REGISTRY}plugin_a@0.3.0"), &[&format!("{REGISTRY}bevy@0.15.0")])];
    assert!(!minimal_lint(&nodes, &vec!["plugin_a".to_string()]));
    assert!(!minimal_lint(&nodes, &vec![]));
    assert!(!minimal_lint(&vec![], &vec!["plugin_a".to_string()]));
}

#[test]
fn distinct_versions_are_detected() {
    assert!(!has_distinct_versions(&vec![]));
    assert!(!has_distinct_versions(&vec!["0.15.0", "0.15.0"]));
    assert!(has_distinct_versions(&vec!["0.15.0", "0.14.0", "0.15.0"]));
}

#[test]
fn check_follows_the_cargo_toml() {
    let pkgs = vec![pkg("plugin_a", vec![dep("bevy", "^0.14")])];
    let nodes = vec![
        node("file:///game#0.1.0", &[]),
        node("file:///forks/bevy#0.15.0", &[]),
        node(&format!("{REGISTRY}plugin_a@0.3.0"), &[&format!("{REGISTRY}bevy@0.14.2")]),
    ];
    let with_bevy = vec![toml_dep("bevy", 0, 6, text("0.15.0")), toml_dep("plugin_a", 10, 15, text("0.3"))];
    let without_bevy = vec![toml_dep("plugin_a", 10, 15, text("0.3"))];

    assert!(matches!(check(1, Some(&with_bevy), 0, "game", &pkgs, Some(&nodes)), DuplicateReport::Nothing));
    assert!(matches!(check(2, None, 0, "game", &pkgs, Some(&nodes)), DuplicateReport::Nothing));
    match check(2, Some(&with_bevy), 0, "game", &pkgs, Some(&nodes)) {
        DuplicateReport::Mismatches(found) => assert_eq!(found.len(), 1),
        _ => panic!("expected mismatches"),
    }
    assert!(matches!(check(2, Some(&without_bevy), 0, "game", &pkgs, Some(&nodes)), DuplicateReport::MultipleVersions));
    assert!(matches!(check(2, Some(&without_bevy), 0, "game", &pkgs, None), DuplicateReport::Nothing));
}

#[test]
fn requirements_that_cannot_be_read_are_not_reported() {
    let deps = vec![toml_dep("bevy", 0, 8, text("0.15.0")), toml_dep("odd", 20, 25, text("1"))];
    let pkgs = vec![pkg("odd", vec![dep("bevy", "not a requirement")]), pkg("old", vec![dep("bevy", "=0.14.0")])];
    let dependents = bevy_dependents(&pkgs, "game");
    assert_eq!(dependents, vec![(0, 0), (1, 0)]);
    assert!(lint_with_target_version(&deps, &deps[0], 0, &pkgs, &dependents).is_empty());
}

#[test]
fn prerelease_versions_follow_semver() {
    let deps = vec![toml_dep("bevy", 0, 12, text("0.15.0-rc.1")), toml_dep("plugin", 20, 25, text("1"))];
    let pkgs = vec![pkg("plugin", vec![dep("bevy", "^0.15")])];
    let dependents = bevy_dependents(&pkgs, "game");
    let found = lint_with_target_version(&deps, &deps[0], 0, &pkgs, &dependents);
    assert_eq!(found.len(), 1);
    assert_eq!(found[0].help, "expected all crates to use `bevy` 0.15.0-rc.1, but `plugin` uses `bevy` ^0.15");
}
