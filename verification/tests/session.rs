use kubie::error::KubieError;
use kubie::session::{HistoryEntry, Session};
use kubie::state::State;

fn session_of(entries: &[(&str, Option<&str>)]) -> Session {
    let mut session = Session::new();
    for (context, namespace) in entries {
        session.add_history_entry(context, *namespace);
    }
    session
}

#[test]
fn history_scan_across_contexts() {
    let session = session_of(&[("A", Some("1")), ("A", Some("2")), ("B", Some("1"))]);
    let previous = session.get_last_context().expect("there is a previous context");
    assert_eq!(previous.context, "A");
    assert_eq!(previous.namespace.as_deref(), Some("2"));
    assert_eq!(session.get_last_namespace(), None);
}

#[test]
fn history_scan_within_one_context() {
    let session = session_of(&[("A", Some("1")), ("A", Some("2"))]);
    assert_eq!(session.get_last_namespace(), Some("1"));
    assert!(session.get_last_context().is_none());
}

#[test]
fn empty_and_single_histories_have_nothing_to_go_back_to() {
    let empty = Session::new();
    assert!(empty.get_last_context().is_none());
    assert_eq!(empty.get_last_namespace(), None);
    assert_eq!(empty.len(), 0);
    let single = session_of(&[("A", Some("1"))]);
    assert!(single.get_last_context().is_none());
    assert_eq!(single.get_last_namespace(), None);
}

#[test]
fn previous_context_passes_over_entries_of_the_current_context() {
    let session = session_of(&[
        ("A", Some("1")),
        ("B", None),
        ("C", Some("x")),
        ("C", Some("y")),
        ("C", Some("z")),
    ]);
    let previous = session.get_last_context().expect("there is a previous context");
    assert_eq!(previous.context, "B");
    assert_eq!(previous.namespace, None);
    assert_eq!(session.get_last_namespace(), Some("y"));
}

#[test]
fn previous_namespace_passes_over_repetitions_of_the_current_namespace() {
    let session = session_of(&[("A", Some("1")), ("A", Some("2")), ("A", Some("2"))]);
    assert_eq!(session.get_last_namespace(), Some("1"));
    let session = session_of(&[("B", Some("1")), ("A", Some("2")), ("A", Some("2"))]);
    assert_eq!(session.get_last_namespace(), None);
}

#[test]
fn previous_namespace_may_be_unset() {
    let session = session_of(&[("A", Some("1")), ("A", None), ("A", Some("2"))]);
    assert_eq!(session.get_last_namespace(), None);
    let session = session_of(&[("A", Some("1")), ("A", None)]);
    assert_eq!(session.get_last_namespace(), Some("1"));
}

#[test]
fn history_only_grows() {
    let mut session = Session::new();
    session.add_history_entry("A", Some("1"));
    assert_eq!(session.len(), 1);
    session.add_history_entry("A", Some("1"));
    assert_eq!(session.len(), 2);
    session.add_history_entry("B", None);
    assert_eq!(session.len(), 3);
    let file = session.save(Some("/tmp/s.json"), None).ok().expect("a path was given");
    assert_eq!(file.history.len(), 3);
    assert_eq!(file.history[0].context, "A");
    assert_eq!(file.history[2].context, "B");
    assert_eq!(file.history[2].namespace, None);
}

#[test]
fn loading_an_inherited_history() {
    let inherited = vec![
        HistoryEntry { context: String::from("A"), namespace: Some(String::from("1")) },
        HistoryEntry { context: String::from("B"), namespace: None },
    ];
    let session = Session::load(Some(inherited));
    assert_eq!(session.len(), 2);
    assert_eq!(session.get_last_context().map(|e| e.context.as_str()), Some("A"));
    assert_eq!(Session::load(None).len(), 0);
}

#[test]
fn saving_needs_a_path() {
    let session = session_of(&[("A", Some("1"))]);
    let file = session.save(Some("/tmp/given.json"), Some("/tmp/inherited.json")).ok().unwrap();
    assert_eq!(file.path, "/tmp/given.json");
    let file = session.save(None, Some("/tmp/inherited.json")).ok().unwrap();
    assert_eq!(file.path, "/tmp/inherited.json");
    assert_eq!(file.history.len(), 1);
    match session.save(None, None) {
        Err(e) => {
            assert!(matches!(e, KubieError::MissingSessionPath));
            assert_eq!(e.message(), "KUBIE_SESSION env variable missing");
        }
        Ok(_) => panic!("saved without a path"),
    }
}

#[test]
fn recording_an_entry_updates_session_and_state() {
    let mut session = Session::new();
    let mut state = State::new();
    session.record_context_entry(&mut state, "A", Some("ns1"), true);
    assert_eq!(session.len(), 1);
    assert_eq!(state.last_context.as_deref(), Some("A"));
    assert_eq!(state.namespace_for("A"), Some("ns1"));

    session.record_context_entry(&mut state, "B", None, false);
    assert_eq!(session.len(), 2);
    assert_eq!(state.last_context.as_deref(), Some("A"));
    assert_eq!(state.namespace_override("B"), None);
    assert_eq!(session.get_last_context().map(|e| e.context.as_str()), Some("A"));

    session.record_context_entry(&mut state, "A", None, true);
    assert_eq!(state.namespace_for("A"), Some("ns1"));
}
