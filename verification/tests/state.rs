use kubie::state::{data_dir, state, state_lock, NamespaceHistory, State};

#[test]
fn paths_of_the_state() {
    assert_eq!(data_dir("/home/u/.local/share"), "/home/u/.local/share/kubie");
    assert_eq!(state("/home/u/.local/share"), "/home/u/.local/share/kubie/state.json");
    assert_eq!(state_lock("/home/u/.local/share"), "/home/u/.local/share/kubie/.state.json.lock");
    assert_eq!(state("/data/"), "/data/kubie/state.json");
}

#[test]
fn a_missing_state_file_is_an_empty_state() {
    let state = State::load(None);
    assert_eq!(state.last_context, None);
    assert!(state.namespace_history.entries().is_empty());
    assert_eq!(state.namespace_for("any"), None);
}

#[test]
fn a_stored_state_is_kept() {
    let mut stored = State::new();
    stored.last_context = Some(String::from("prod"));
    stored.namespace_history.insert("prod", Some(String::from("payments")));
    let state = State::load(Some(stored));
    assert_eq!(state.last_context.as_deref(), Some("prod"));
    assert_eq!(state.namespace_for("prod"), Some("payments"));
}

#[test]
fn namespace_history_keeps_one_entry_for_each_context() {
    let mut history = NamespaceHistory::new();
    assert!(history.get("a").is_none());
    history.insert("a", Some(String::from("one")));
    history.insert("b", None);
    history.insert("a", Some(String::from("two")));
    assert_eq!(history.get("a"), Some(&Some(String::from("two"))));
    assert_eq!(history.get("b"), Some(&None));
    assert!(history.get("c").is_none());
    assert_eq!(
        history.entries(),
        &vec![(String::from("a"), Some(String::from("two"))), (String::from("b"), None)]
    );
}

#[test]
fn recording_a_namespace_and_unsetting_it() {
    let mut state = State::new();
    state.record_namespace("dev", Some("web"));
    assert_eq!(state.namespace_for("dev"), Some("web"));
    assert_eq!(state.namespace_override("dev"), Some(Some("web")));
    state.record_namespace("dev", None);
    assert_eq!(state.namespace_for("dev"), None);
    assert_eq!(state.namespace_override("dev"), Some(None));
    assert_eq!(state.namespace_override("other"), None);
    assert_eq!(state.last_context, None);
}

#[test]
fn two_modifications_in_sequence_lose_no_update() {
    let mut state = State::load(None);
    state.record_context_entry("a", Some("x"), true);
    let mut state = State::load(Some(state));
    state.record_context_entry("b", Some("y"), false);
    assert_eq!(state.namespace_for("a"), Some("x"));
    assert_eq!(state.namespace_for("b"), Some("y"));
    assert_eq!(state.last_context.as_deref(), Some("a"));
}
