use steward::env::{Env, PATH};

#[test]
fn empty_env_has_no_values() {
    let env = Env::empty();
    assert!(env.get("PATH").is_none());
}

#[test]
fn one_entry_env() {
    let env = Env::one("PORT".to_string(), "8080".to_string());
    assert_eq!(env.get("PORT").unwrap(), "8080");
    assert!(env.get("HOST").is_none());
}

#[test]
fn insert_overrides_value() {
    let env = Env::one("PORT".to_string(), "8080".to_string());
    let env = env.insert("PORT".to_string(), "9090".to_string());
    assert_eq!(env.get("PORT").unwrap(), "9090");
}

#[test]
fn insert_cloned_leaves_receiver_untouched() {
    let env = Env::one("PORT".to_string(), "8080".to_string());
    let other = env.insert_cloned("PORT".to_string(), "9090".to_string());
    assert_eq!(env.get("PORT").unwrap(), "8080");
    assert_eq!(other.get("PORT").unwrap(), "9090");
}

#[test]
fn from_vec_later_entries_win() {
    let env = Env::from_vec(vec![
        ("A".to_string(), "1".to_string()),
        ("B".to_string(), "2".to_string()),
        ("A".to_string(), "3".to_string()),
    ]);
    assert_eq!(env.get("A").unwrap(), "3");
    assert_eq!(env.get("B").unwrap(), "2");
}

#[test]
fn merge_is_last_write_wins() {
    let first = Env::from_vec(vec![
        ("SHARED".to_string(), "first".to_string()),
        ("ONLY_FIRST".to_string(), "f".to_string()),
    ]);
    let second = Env::from_vec(vec![
        ("SHARED".to_string(), "second".to_string()),
        ("ONLY_SECOND".to_string(), "s".to_string()),
    ]);
    let merged = first.extend(second);
    assert_eq!(merged.get("SHARED").unwrap(), "second");
    assert_eq!(merged.get("ONLY_FIRST").unwrap(), "f");
    assert_eq!(merged.get("ONLY_SECOND").unwrap(), "s");
    assert!(merged.get("ABSENT").is_none());
}

#[test]
fn merge_cloned_keeps_receiver() {
    let first = Env::one("A".to_string(), "1".to_string());
    let second = Env::one("A".to_string(), "2".to_string());
    let merged = first.extend_cloned(second);
    assert_eq!(first.get("A").unwrap(), "1");
    assert_eq!(merged.get("A").unwrap(), "2");
}

#[test]
fn to_vec_hands_entries_out() {
    let env = Env::one("A".to_string(), "1".to_string());
    let entries = env.to_vec();
    assert_eq!(entries, vec![("A".to_string(), "1".to_string())]);
}

#[test]
fn path_extend_joins_with_colon() {
    let extended = PATH::extend(Some("/usr/bin:/bin".to_string()), "/opt/tools");
    assert_eq!(extended, "/usr/bin:/bin:/opt/tools");
}

#[test]
fn path_extend_without_current_value() {
    let extended = PATH::extend(None, "/opt/tools");
    assert_eq!(extended, "/opt/tools");
}
