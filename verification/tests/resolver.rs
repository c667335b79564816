//! Tests of the path resolver: scope membership, nearest-candidate
//! selection, tie-breaking, and the global fallback.

use rmnd::config_file_name;
use rmnd::paths::{find_all_in_scope, find_nearest_local, path_in_scope, AbsPath};

fn p(parts: &[&str]) -> AbsPath {
    AbsPath { parts: parts.iter().map(|s| s.to_string()).collect() }
}

fn parts(path: &AbsPath) -> Vec<String> {
    path.parts.clone()
}

#[test]
fn config_file_name_is_fixed() {
    assert_eq!(config_file_name(), "rmnd.toml");
}

#[test]
fn scope_includes_own_directory_and_descendants() {
    let reg = p(&["proj", "rmnd.toml"]);
    assert!(path_in_scope(&reg, &p(&["proj"])));
    assert!(path_in_scope(&reg, &p(&["proj", "sub"])));
    assert!(path_in_scope(&reg, &p(&["proj", "sub", "deeper"])));
}

#[test]
fn scope_excludes_outside_directories() {
    let reg = p(&["proj", "rmnd.toml"]);
    assert!(!path_in_scope(&reg, &p(&[])));
    assert!(!path_in_scope(&reg, &p(&["other"])));
    assert!(!path_in_scope(&reg, &p(&["projx", "sub"])));
}

#[test]
fn root_registered_config_is_in_scope_everywhere() {
    let reg = p(&["rmnd.toml"]);
    assert!(path_in_scope(&reg, &p(&[])));
    assert!(path_in_scope(&reg, &p(&["anywhere", "at", "all"])));
}

#[test]
fn find_all_in_scope_keeps_exactly_the_enclosing_registrations() {
    let cwd = p(&["home", "user", "work", "proj"]);
    let registered = vec![
        p(&["home", "user", "work", "rmnd.toml"]),
        p(&["home", "other", "rmnd.toml"]),
        p(&["home", "user", "work", "proj", "rmnd.toml"]),
        p(&["home", "user", "work", "proj", "sub", "rmnd.toml"]),
    ];
    let found = find_all_in_scope(&cwd, &registered);
    assert_eq!(found.len(), 2);
    assert_eq!(parts(&found[0]), parts(&registered[0]));
    assert_eq!(parts(&found[1]), parts(&registered[2]));
}

#[test]
fn find_all_in_scope_empty_registry_finds_nothing() {
    let found = find_all_in_scope(&p(&["proj"]), &Vec::new());
    assert!(found.is_empty());
}

#[test]
fn nearest_picks_minimum_distance() {
    let cwd = p(&["home", "user", "work", "proj", "sub"]);
    let registered = vec![
        p(&["home", "user", "rmnd.toml"]),
        p(&["home", "user", "work", "proj", "rmnd.toml"]),
        p(&["home", "user", "work", "rmnd.toml"]),
    ];
    let global = p(&["home", "user", ".config", "rmnd.toml"]);
    let r = find_nearest_local(&cwd, &registered, &global, false);
    assert_eq!(parts(&r), parts(&registered[1]));
}

#[test]
fn nearest_single_candidate_wins_regardless_of_distance() {
    let cwd = p(&["home", "user", "a", "b", "c", "d"]);
    let registered = vec![p(&["other", "rmnd.toml"]), p(&["home", "rmnd.toml"])];
    let global = p(&["cfg", "rmnd.toml"]);
    let r = find_nearest_local(&cwd, &registered, &global, false);
    assert_eq!(parts(&r), parts(&registered[1]));
}

#[test]
fn nearest_breaks_ties_toward_first_registered() {
    let cwd = p(&["proj", "sub"]);
    let registered = vec![
        p(&["proj", "first.rmnd.toml"]),
        p(&["proj", "second.rmnd.toml"]),
    ];
    let global = p(&["cfg", "rmnd.toml"]);
    let r = find_nearest_local(&cwd, &registered, &global, false);
    assert_eq!(parts(&r), parts(&registered[0]));
}

#[test]
fn nearest_falls_back_to_global_path() {
    let cwd = p(&["elsewhere"]);
    let registered = vec![p(&["proj", "rmnd.toml"])];
    let global = p(&["home", "user", ".config", "rmnd.toml"]);
    let r = find_nearest_local(&cwd, &registered, &global, false);
    assert_eq!(parts(&r), parts(&global));
}

#[test]
fn nearest_falls_back_to_global_on_empty_registry() {
    let global = p(&["home", "user", ".config", "rmnd.toml"]);
    let r = find_nearest_local(&p(&["proj"]), &Vec::new(), &global, false);
    assert_eq!(parts(&r), parts(&global));
}

#[test]
fn degenerate_empty_registered_path_is_never_in_scope() {
    let cwd = p(&["proj"]);
    let registered = vec![p(&[]), p(&["proj", "rmnd.toml"])];
    let global = p(&["cfg", "rmnd.toml"]);
    assert!(!path_in_scope(&registered[0], &cwd));
    let r = find_nearest_local(&cwd, &registered, &global, false);
    assert_eq!(parts(&r), parts(&registered[1]));
}

#[test]
fn direct_presence_beats_the_registry() {
    let cwd = p(&["proj", "sub"]);
    let registered = vec![p(&["proj", "rmnd.toml"])];
    let global = p(&["cfg", "rmnd.toml"]);
    let r = find_nearest_local(&cwd, &registered, &global, true);
    assert_eq!(
        parts(&r),
        vec![
            "proj".to_string(),
            "sub".to_string(),
            "rmnd.toml".to_string(),
        ]
    );
}
