use wasmbl::environment::{
    clear_actions, is_family_variable, lookup, restore_actions, saved_environment,
    script_variable_names, EnvAction, SavedVariable,
};
use std::collections::BTreeMap;

fn env(pairs: &[(&str, &str)]) -> Vec<(String, String)> {
    pairs.iter().map(|(k, v)| (k.to_string(), v.to_string())).collect()
}

fn apply(actions: Vec<EnvAction>, map: &mut BTreeMap<String, String>) {
    for action in actions {
        match action {
            EnvAction::Assign(key, value) => {
                map.insert(key, value);
            }
            EnvAction::Remove(key) => {
                map.remove(&key);
            }
        }
    }
}

fn build_script_environment() -> Vec<(String, String)> {
    env(&[("OUT_DIR", "/o"), ("CARGO_FEATURE_X", "1"), ("DEP_Z_INCLUDE", "/i"), ("HOME", "/h")])
}

fn saved(list: &[SavedVariable], key: &str) -> Option<Option<String>> {
    list.iter().find(|s| s.key == key).map(|s| s.value.clone())
}

#[test]
fn lookup_gives_the_value_of_the_first_entry() {
    let e = env(&[("A", "1"), ("B", "2"), ("A", "3")]);
    assert_eq!(lookup(&e, "A"), Some("1".to_string()));
    assert_eq!(lookup(&e, "B"), Some("2".to_string()));
    assert_eq!(lookup(&e, "C"), None);
    assert_eq!(lookup(&Vec::new(), "A"), None);
}

#[test]
fn families_go_by_their_prefix() {
    assert!(is_family_variable("CARGO_FEATURE_SASS"));
    assert!(is_family_variable("CARGO_CFG_UNIX"));
    assert!(is_family_variable("DEP_Z_INCLUDE"));
    assert!(is_family_variable("DEP_"));
    assert!(!is_family_variable("CARGO_HOME"));
    assert!(!is_family_variable("DEP"));
    assert!(!is_family_variable("XDEP_Z"));
}

#[test]
fn fourteen_single_variables() {
    let names = script_variable_names();
    assert_eq!(names.len(), 14);
    assert_eq!(names[0], "CARGO");
    assert_eq!(names[4], "OUT_DIR");
    assert_eq!(names[13], "RUSTC_LINKER");
}

#[test]
fn saved_environment_holds_each_variable_with_its_value() {
    let list = saved_environment(&build_script_environment(), &vec!["CARGO_TARGET_DIR".to_string()]);
    assert_eq!(list.len(), 14 + 1 + 2);
    assert_eq!(saved(&list, "OUT_DIR"), Some(Some("/o".to_string())));
    assert_eq!(saved(&list, "CARGO"), Some(None));
    assert_eq!(saved(&list, "CARGO_TARGET_DIR"), Some(None));
    assert_eq!(saved(&list, "CARGO_FEATURE_X"), Some(Some("1".to_string())));
    assert_eq!(saved(&list, "DEP_Z_INCLUDE"), Some(Some("/i".to_string())));
    assert_eq!(saved(&list, "HOME"), None);
    assert_eq!(list[14].key, "CARGO_TARGET_DIR");
    assert_eq!(list[15].key, "CARGO_FEATURE_X");
    assert_eq!(list[16].key, "DEP_Z_INCLUDE");
}

#[test]
fn the_packer_sees_what_is_left_and_everything_comes_back() {
    let before: BTreeMap<String, String> = build_script_environment().into_iter().collect();
    let list = saved_environment(&build_script_environment(), &vec!["CARGO_TARGET_DIR".to_string()]);

    let mut seen = before.clone();
    apply(clear_actions(&list), &mut seen);
    let home_only: BTreeMap<String, String> =
        env(&[("HOME", "/h")]).into_iter().collect();
    assert_eq!(seen, home_only);

    seen.insert("CARGO_TARGET_DIR".to_string(), "/w/web-target".to_string());
    seen.insert("OUT_DIR".to_string(), "/elsewhere".to_string());
    apply(restore_actions(&list), &mut seen);
    assert_eq!(seen, before);
}

#[test]
fn restore_sets_or_removes() {
    let list = vec![
        SavedVariable { key: "A".to_string(), value: Some("1".to_string()) },
        SavedVariable { key: "B".to_string(), value: None },
    ];
    let actions = restore_actions(&list);
    assert!(matches!(&actions[0], EnvAction::Assign(k, v) if k == "A" && v == "1"));
    assert!(matches!(&actions[1], EnvAction::Remove(k) if k == "B"));
    let actions = clear_actions(&list);
    assert!(matches!(&actions[0], EnvAction::Remove(k) if k == "A"));
    assert!(matches!(&actions[1], EnvAction::Remove(k) if k == "B"));
    assert!(restore_actions(&Vec::new()).is_empty());
}

#[test]
fn variable_of_a_family_that_is_not_set_is_not_saved() {
    let list = saved_environment(&env(&[("HOME", "/h")]), &Vec::new());
    assert_eq!(list.len(), 14);
    assert!(list.iter().all(|s| s.value.is_none()));
}
