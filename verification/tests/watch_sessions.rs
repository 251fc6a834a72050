use todo_store::PollAction;
use todo_store::SessionState;
use todo_store::StoreError;
use todo_store::Todo;
use todo_store::TodoStore;

fn record(id: u32, description: &str, status: &str) -> Todo {
    Todo { id: Some(id), description: description.to_owned(), status: status.to_owned() }
}

#[test]
fn watch_on_never_added_id_fails_not_found() {
    let store = TodoStore::new();
    let r = store.watch(99);
    assert_eq!(r.unwrap_err(), StoreError::NotFound);
}

#[test]
fn watch_captures_the_current_record() {
    let mut store = TodoStore::new();
    store.add(record(1, "watched", "open")).unwrap();
    let session = store.watch(1).unwrap();
    assert_eq!(session.watched_id, 1);
    assert_eq!(session.state, SessionState::Active);
    assert!(session.last_observed.same_as(&record(1, "watched", "open")));
}

#[test]
fn poll_right_after_watch_emits_nothing() {
    let mut store = TodoStore::new();
    store.add(record(1, "quiet", "open")).unwrap();
    let mut session = store.watch(1).unwrap();
    let action = session.poll(&store);
    assert!(matches!(action, PollAction::NoChange));
    assert_eq!(session.state, SessionState::Active);
}

#[test]
fn two_updates_within_one_tick_coalesce_to_last_value() {
    let mut store = TodoStore::new();
    store.add(record(1, "busy", "open")).unwrap();
    let mut session = store.watch(1).unwrap();
    store.update_status(Some(1), "done".to_owned()).unwrap();
    store.update_status(Some(1), "closed".to_owned()).unwrap();
    let action = session.poll(&store);
    match action {
        PollAction::Emit(t) => assert_eq!(t.status, "closed"),
        _ => panic!("one change event was owed"),
    }
    let after = session.poll(&store);
    assert!(matches!(after, PollAction::NoChange));
}

#[test]
fn unchanged_record_stays_silent_across_ticks() {
    let mut store = TodoStore::new();
    store.add(record(2, "steady", "open")).unwrap();
    let mut session = store.watch(2).unwrap();
    assert!(matches!(session.poll(&store), PollAction::NoChange));
    assert!(matches!(session.poll(&store), PollAction::NoChange));
}

#[test]
fn emitted_value_becomes_the_new_baseline() {
    let mut store = TodoStore::new();
    store.add(record(3, "base", "open")).unwrap();
    let mut session = store.watch(3).unwrap();
    store.update_status(Some(3), "done".to_owned()).unwrap();
    assert!(matches!(session.poll(&store), PollAction::Emit(_)));
    assert!(session.last_observed.same_as(&record(3, "base", "done")));
    assert!(matches!(session.poll(&store), PollAction::NoChange));
}

#[test]
fn removal_terminates_with_exactly_one_not_found() {
    let mut store = TodoStore::new();
    store.add(record(1, "doomed", "open")).unwrap();
    let mut session = store.watch(1).unwrap();
    store.remove(1).unwrap();
    let action = session.poll(&store);
    assert!(matches!(action, PollAction::Removed));
    assert_eq!(session.state, SessionState::TerminatedNotFound);
}

#[test]
fn disconnect_ends_the_session_silently() {
    let mut store = TodoStore::new();
    store.add(record(4, "left", "open")).unwrap();
    let mut session = store.watch(4).unwrap();
    session.disconnect();
    assert_eq!(session.state, SessionState::TerminatedDisconnected);
    assert_eq!(session.watched_id, 4);
}
