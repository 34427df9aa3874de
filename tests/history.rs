use session_history::navigable::{
    target_entry_index, HistoryApplicationResult, Navigable, NavigableId, TraversableNavigable,
};
use session_history::session_history::{
    DocumentId, DocumentState, IdCounter, NestedHistory, NestedHistoryId, ScrollRestorationMode,
    SessionHistoryEntry, SessionHistoryEntryStep,
};

fn state(doc: usize) -> DocumentState {
    DocumentState::new(DocumentId(doc), Some("frame".to_owned()), None, "https://example.com".to_owned(), None)
}

fn entry(key: &str, url: &str, doc: usize, step: Option<usize>) -> SessionHistoryEntry {
    let mut e = SessionHistoryEntry::with_key(url.to_owned(), state(doc), key.to_owned());
    if let Some(s) = step {
        e.set_step(s);
    }
    e
}

#[test]
fn top_level_iff_no_parent() {
    let mut n = Navigable::new(NavigableId(1), "main".to_owned());
    assert!(n.is_top_level());
    n.initialize_with_key(state(1), "https://example.com/".to_owned(), "k".to_owned(), Some(NavigableId(0)));
    assert!(!n.is_top_level());
    assert_eq!(n.parent, Some(NavigableId(0)));
}

#[test]
fn initialize_sets_current_and_active_entry() {
    let mut n = Navigable::new(NavigableId(3), "x".to_owned());
    n.initialize(state(5), "https://example.com/start".to_owned(), None);
    let active = n.active_session_history_entry().unwrap();
    assert_eq!(active.step, SessionHistoryEntryStep::Integer(0));
    assert_eq!(active.url, "https://example.com/start");
    assert_eq!(active.navigation_api_key.len(), 36);
    assert_eq!(n.active_document(), Some(DocumentId(5)));
    assert_eq!(n.target_name(), Some("frame".to_owned()));
    let current = n.current_session_history_entry.as_ref().unwrap();
    assert!(current.same_entry(&active));
}

#[test]
fn fresh_keys_differ() {
    let a = SessionHistoryEntry::new("about:blank".to_owned(), state(1));
    let b = SessionHistoryEntry::new("about:blank".to_owned(), state(1));
    assert!(!a.same_entry(&b));
    assert_eq!(a.step, SessionHistoryEntryStep::Pending);
    assert_eq!(a.scroll_restoration_mode, ScrollRestorationMode::Auto);
}

#[test]
fn ids_come_from_the_counter() {
    let mut c = IdCounter::new();
    assert_eq!(DocumentId::next(&mut c), DocumentId(0));
    assert_eq!(DocumentId::next(&mut c), DocumentId(1));
    assert_eq!(NestedHistoryId::next(&mut c), NestedHistoryId(2));
    assert_eq!(NavigableId::default(), NavigableId(0));
}

#[test]
fn entry_state_and_key_accessors() {
    let mut e = entry("abc", "https://example.com/", 1, None);
    assert_eq!(e.navigation_api_key(), "abc");
    assert_eq!(e.navigation_api_state(), None);
    e.set_navigation_api_state("{}".to_owned());
    assert_eq!(e.navigation_api_state(), Some("{}".to_owned()));
}

fn traversable() -> TraversableNavigable {
    let mut t = TraversableNavigable::new(
        NavigableId(0),
        "top".to_owned(),
        state(0),
        "https://example.com/0".to_owned(),
        "k0".to_owned(),
    );
    t.session_history_entries.push(entry("k2", "https://example.com/2", 2, Some(2)));
    t.session_history_entries.push(entry("k5", "https://example.com/5", 5, Some(5)));
    let mut child = Navigable::new(NavigableId(9), "child".to_owned());
    child.initialize_with_key(state(90), "https://example.com/c0".to_owned(), "c0".to_owned(), Some(NavigableId(0)));
    t.descendants.push(child);
    let mut nested = NestedHistory::new(NestedHistoryId(9));
    nested.entries.push(entry("c0", "https://example.com/c0", 90, Some(0)));
    nested.entries.push(entry("c3", "https://example.com/c3", 93, Some(3)));
    t.nested_histories.push(nested);
    t
}

#[test]
fn used_steps_are_sorted_and_unique() {
    let t = traversable();
    assert_eq!(t.get_all_used_history_steps(), vec![0, 2, 3, 5]);
}

#[test]
fn used_step_rounds_down() {
    let t = traversable();
    assert_eq!(t.get_the_used_step(4), 3);
    assert_eq!(t.get_the_used_step(5), 5);
    assert_eq!(t.get_the_used_step(100), 5);
    assert_eq!(t.get_the_used_step(1), 0);
}

#[test]
fn target_entry_is_latest_at_or_before_step() {
    let t = traversable();
    assert_eq!(t.get_the_target_history_entry(NavigableId(0), 4), Some(1));
    assert_eq!(t.get_the_target_history_entry(NavigableId(9), 4), Some(1));
    assert_eq!(t.get_the_target_history_entry(NavigableId(9), 2), Some(0));
    assert_eq!(t.get_the_target_history_entry(NavigableId(4), 2), None);
    let entries = vec![entry("a", "u", 1, Some(3)), entry("b", "u", 1, Some(3)), entry("c", "u", 1, None)];
    assert_eq!(target_entry_index(&entries, 3), Some(1));
    assert_eq!(target_entry_index(&entries, 2), None);
}

#[test]
fn session_history_entries_by_navigable() {
    let t = traversable();
    assert_eq!(t.get_session_history_entries(NavigableId(0)).unwrap().len(), 3);
    assert_eq!(t.get_session_history_entries(NavigableId(9)).unwrap().len(), 2);
    assert!(t.get_session_history_entries(NavigableId(4)).is_none());
    assert_eq!(t.find_nested_history(NavigableId(9)), Some(0));
}

#[test]
fn applying_a_step_moves_changed_navigables() {
    let mut t = traversable();
    let r = t.apply_history_step(4, false, false);
    assert_eq!(r, HistoryApplicationResult::Applied);
    assert_eq!(t.current_session_history_step, 3);
    let top = t.navigable.current_session_history_entry.as_ref().unwrap();
    assert_eq!(top.navigation_api_key, "k2");
    assert!(t.navigable.ongoing_traversal);
    let child = t.descendants[0].current_session_history_entry.as_ref().unwrap();
    assert_eq!(child.navigation_api_key, "c3");
    assert!(t.descendants[0].ongoing_traversal);
}

#[test]
fn applying_the_current_step_changes_nothing() {
    let mut t = traversable();
    let r = t.apply_history_step(1, false, false);
    assert_eq!(r, HistoryApplicationResult::Applied);
    assert_eq!(t.current_session_history_step, 0);
    assert!(!t.navigable.ongoing_traversal);
    assert!(!t.descendants[0].ongoing_traversal);
}

#[test]
fn canceled_traversals_change_nothing() {
    let mut t = traversable();
    assert_eq!(t.apply_history_step(5, true, true), HistoryApplicationResult::InitiatorDisallowed);
    assert_eq!(t.apply_history_step(5, false, true), HistoryApplicationResult::CancelledByBeforeUnload);
    assert_eq!(t.current_session_history_step, 0);
    assert_eq!(t.navigable.current_session_history_entry.as_ref().unwrap().navigation_api_key, "k0");
}

#[test]
fn entries_compare_by_key() {
    let a = entry("same", "https://example.com/1", 1, Some(1));
    let b = entry("same", "https://example.com/2", 2, None);
    let c = entry("other", "https://example.com/1", 1, Some(1));
    assert!(a == b);
    assert!(a != c);
}

#[test]
fn appended_entries_take_the_next_step() {
    let mut t = TraversableNavigable::new(NavigableId(0), "top".to_owned(), state(0), "https://example.com/0".to_owned(), "k0".to_owned());
    assert_eq!(t.append_session_history_entry(entry("k1", "https://example.com/1", 1, None)), Some(1));
    assert_eq!(t.append_session_history_entry(entry("k2", "https://example.com/2", 2, Some(40))), Some(2));
    assert_eq!(t.append_session_history_entry(entry("k1", "https://example.com/3", 3, None)), None);
    assert_eq!(t.session_history_entries.len(), 3);
    assert_eq!(t.session_history_entries[2].step, SessionHistoryEntryStep::Integer(2));
    assert!(t.nested_history_ids_unique());
    let mut dup = traversable();
    dup.nested_histories.push(NestedHistory::new(NestedHistoryId(9)));
    assert!(!dup.nested_history_ids_unique());
}
