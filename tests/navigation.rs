use session_history::navigable::HistoryApplicationResult;
use session_history::navigation::{
    DocumentStatus, DomError, Navigation, NavigationDestination, NavigationHistoryBehavior, NavigationHistoryEntry,
    NavigationResult, PromiseState, TraversalSteps,
};
use session_history::session_history::{DocumentId, DocumentState, SessionHistoryEntry};

fn active_document() -> DocumentStatus {
    DocumentStatus {
        fully_active: true,
        unload_counter: 0,
        is_initial_about_blank: false,
        origin_is_opaque: false,
        url: "https://example.com/a/b".to_owned(),
    }
}

fn navigation_with(len: usize, current: Option<usize>) -> Navigation {
    let mut nav = Navigation::new(active_document());
    for i in 0..len {
        nav.entry_list.push(NavigationHistoryEntry::new(
            Some(format!("https://example.com/{}", i)),
            format!("key-{}", i),
            format!("id-{}", i),
            i as i64,
        ));
    }
    nav.current_entry_index = current;
    nav
}

fn assert_early(r: &NavigationResult, e: DomError) {
    assert_eq!(r.committed, r.finished);
    assert_eq!(r.committed.state, PromiseState::Rejected(e));
}

#[test]
fn can_go_back_and_forward_in_the_middle() {
    let nav = navigation_with(3, Some(1));
    assert!(nav.can_go_back());
    assert!(nav.can_go_forward());
}

#[test]
fn cannot_go_back_from_first_entry() {
    let nav = navigation_with(3, Some(0));
    assert!(!nav.can_go_back());
    assert!(nav.can_go_forward());
}

#[test]
fn cannot_go_forward_from_last_entry() {
    let nav = navigation_with(3, Some(2));
    assert!(nav.can_go_back());
    assert!(!nav.can_go_forward());
}

#[test]
fn cannot_go_anywhere_without_current_index() {
    let nav = navigation_with(3, None);
    assert!(!nav.can_go_back());
    assert!(!nav.can_go_forward());
}

#[test]
fn disabled_entries_block_back_and_forward() {
    let mut nav = navigation_with(3, Some(1));
    nav.document.origin_is_opaque = true;
    assert!(!nav.can_go_back());
    assert!(!nav.can_go_forward());
    assert!(nav.entries().is_empty());
    assert!(nav.get_current_entry().is_none());
}

#[test]
fn traverse_to_unknown_key_is_an_early_invalid_state_error() {
    let mut nav = navigation_with(3, Some(1));
    let r = nav.traverse_to(&"missing".to_owned());
    assert_early(&r, DomError::InvalidState);
    assert_eq!(nav.upcoming_traverse_method_tracker.len(), 0);
}

#[test]
fn inactive_document_rejects_every_method() {
    let mut nav = navigation_with(3, Some(1));
    nav.document.fully_active = false;
    let (r, url) = nav.navigate("c", NavigationHistoryBehavior::Auto);
    assert_early(&r, DomError::InvalidState);
    assert!(url.is_none());
    assert_early(&nav.reload(), DomError::InvalidState);
    assert_early(&nav.back(), DomError::InvalidState);
    assert_early(&nav.forward(), DomError::InvalidState);
    assert_early(&nav.traverse_to(&"key-2".to_owned()), DomError::InvalidState);
    assert_eq!(nav.entry_list.len(), 3);
    assert_eq!(nav.entry_list[2].key, "key-2");
    assert_eq!(nav.upcoming_traverse_method_tracker.len(), 0);
    assert!(nav.upcoming_non_traverse_method_tracker.is_none());
}

#[test]
fn repeated_traversal_returns_the_same_result() {
    let mut nav = navigation_with(3, Some(1));
    let first = nav.traverse_to(&"key-2".to_owned());
    let second = nav.traverse_to(&"key-2".to_owned());
    assert_eq!(first, second);
    assert_eq!(first.committed.state, PromiseState::Pending);
    assert!(first.finished.handled);
    assert_ne!(first.committed.id, first.finished.id);
    assert_eq!(nav.upcoming_traverse_method_tracker.len(), 1);
}

#[test]
fn traversal_to_current_entry_resolves_at_once() {
    let mut nav = navigation_with(3, Some(1));
    let r = nav.traverse_to(&"key-1".to_owned());
    assert_eq!(r.committed, r.finished);
    assert_eq!(r.committed.state, PromiseState::Fulfilled);
    assert_eq!(nav.upcoming_traverse_method_tracker.len(), 0);
}

#[test]
fn back_and_forward_target_neighbours() {
    let mut nav = navigation_with(3, Some(1));
    let back = nav.back();
    let forward = nav.forward();
    assert_ne!(back, forward);
    assert_eq!(nav.upcoming_traverse_method_tracker.len(), 2);
    assert!(nav.upcoming_traverse_method_tracker.contains_key("key-0"));
    assert!(nav.upcoming_traverse_method_tracker.contains_key("key-2"));
}

#[test]
fn back_from_first_entry_is_an_early_error() {
    let mut nav = navigation_with(3, Some(0));
    assert_early(&nav.back(), DomError::InvalidState);
    let mut nav = navigation_with(3, Some(2));
    assert_early(&nav.forward(), DomError::InvalidState);
}

#[test]
fn unloading_document_rejects_traversal() {
    let mut nav = navigation_with(3, Some(1));
    nav.document.unload_counter = 1;
    assert_early(&nav.back(), DomError::InvalidState);
}

#[test]
fn navigate_resolves_relative_url() {
    let mut nav = navigation_with(1, Some(0));
    let (r, url) = nav.navigate("c?d=1", NavigationHistoryBehavior::Push);
    assert_eq!(url.as_deref(), Some("https://example.com/a/c?d=1"));
    assert_eq!(r.committed.state, PromiseState::Pending);
    assert_eq!(nav.upcoming_non_traverse_method_tracker.map(|t| t.committed_promise), Some(r.committed));
}

#[test]
fn navigate_with_bad_url_is_a_syntax_error() {
    let mut nav = navigation_with(1, Some(0));
    let (r, url) = nav.navigate("http://[::1", NavigationHistoryBehavior::Auto);
    assert_early(&r, DomError::Syntax);
    assert!(url.is_none());
}

#[test]
fn push_to_javascript_url_is_not_supported() {
    let mut nav = navigation_with(1, Some(0));
    let (r, _) = nav.navigate("javascript:void(0)", NavigationHistoryBehavior::Push);
    assert_early(&r, DomError::NotSupported);
    let (r, url) = nav.navigate("javascript:void(0)", NavigationHistoryBehavior::Replace);
    assert_eq!(r.committed.state, PromiseState::Pending);
    assert_eq!(url.as_deref(), Some("javascript:void(0)"));
}

#[test]
fn reload_on_blank_document_does_not_install_tracker() {
    let mut nav = navigation_with(1, Some(0));
    nav.document.is_initial_about_blank = true;
    let r = nav.reload();
    assert_eq!(r.committed.state, PromiseState::Pending);
    assert!(nav.upcoming_non_traverse_method_tracker.is_none());
}

#[test]
fn update_current_entry_needs_a_current_entry() {
    let nav = navigation_with(2, None);
    assert_eq!(nav.update_current_entry(), Err(DomError::InvalidState));
    let nav = navigation_with(2, Some(1));
    assert_eq!(nav.update_current_entry(), Ok(()));
}

fn she(key: &str, step: Option<usize>) -> SessionHistoryEntry {
    let state = DocumentState::new(DocumentId(7), None, None, "https://example.com".to_owned(), None);
    let mut e = SessionHistoryEntry::with_key("https://example.com/".to_owned(), state, key.to_owned());
    if let Some(s) = step {
        e.set_step(s);
    }
    e
}

#[test]
fn traversal_steps_and_settlement() {
    let mut nav = navigation_with(3, Some(1));
    let r = nav.traverse_to(&"key-2".to_owned());
    let entries = vec![she("key-0", Some(0)), she("key-1", Some(1)), she("key-2", Some(2))];
    let steps = nav.run_traversal_steps(&"key-2".to_owned(), &entries, &"key-1".to_owned());
    assert_eq!(steps, TraversalSteps::ApplyStep(2));
    let settled = nav.settle_traversal(&"key-2".to_owned(), HistoryApplicationResult::CancelledByBeforeUnload);
    let t = settled.unwrap();
    assert_eq!(t.committed_promise, r.committed);
    assert_eq!(t.finished_promise.state, PromiseState::Rejected(DomError::Abort));
    assert_eq!(nav.upcoming_traverse_method_tracker.len(), 0);
}

#[test]
fn traversal_steps_without_target_reject_finished() {
    let mut nav = navigation_with(3, Some(1));
    nav.traverse_to(&"key-2".to_owned());
    let entries = vec![she("key-0", Some(0)), she("key-2", None)];
    match nav.run_traversal_steps(&"key-2".to_owned(), &entries, &"key-0".to_owned()) {
        TraversalSteps::NoSuchEntry(Some(t)) => {
            assert_eq!(t.finished_promise.state, PromiseState::Rejected(DomError::InvalidState))
        },
        other => panic!("unexpected {:?}", other),
    }
    assert_eq!(nav.upcoming_traverse_method_tracker.len(), 0);
}

#[test]
fn traversal_steps_to_active_entry_do_nothing() {
    let mut nav = navigation_with(3, Some(1));
    let entries = vec![she("key-0", Some(0))];
    let steps = nav.run_traversal_steps(&"key-0".to_owned(), &entries, &"key-0".to_owned());
    assert_eq!(steps, TraversalSteps::AlreadyActive);
}

#[test]
fn settling_applied_and_disallowed_traversals() {
    let mut nav = navigation_with(3, Some(1));
    nav.back();
    nav.forward();
    let t = nav.settle_traversal(&"key-0".to_owned(), HistoryApplicationResult::Applied).unwrap();
    assert_eq!(t.committed_promise.state, PromiseState::Fulfilled);
    assert_eq!(t.finished_promise.state, PromiseState::Fulfilled);
    let t = nav.settle_traversal(&"key-2".to_owned(), HistoryApplicationResult::InitiatorDisallowed).unwrap();
    assert_eq!(t.finished_promise.state, PromiseState::Rejected(DomError::Security));
    assert!(nav.settle_traversal(&"key-2".to_owned(), HistoryApplicationResult::Applied).is_none());
}

#[test]
fn early_error_result_uses_one_promise() {
    let mut nav = navigation_with(0, None);
    let r = nav.early_error_result(DomError::Security);
    assert_early(&r, DomError::Security);
    assert_eq!(r.committed.id, 0);
    assert_eq!(nav.next_promise_id, 1);
}

#[test]
fn destination_and_entry_accessors() {
    let entry = NavigationHistoryEntry::new(Some("https://example.com/".to_owned()), "k".to_owned(), "i".to_owned(), 4);
    assert_eq!(entry.get_url(true).as_deref(), Some("https://example.com/"));
    assert_eq!(entry.get_url(false), None);
    assert_eq!(entry.id(), "i");
    assert_eq!(entry.index(), 4);
    let d = NavigationDestination { url: "https://example.com/".to_owned(), entry: Some(entry), same_document: true, state: None };
    assert_eq!(d.key(), "k");
    assert_eq!(d.id(), "i");
    assert_eq!(d.index(), 4);
    assert!(d.same_document());
    let none = NavigationDestination { url: "https://example.com/x".to_owned(), entry: None, same_document: false, state: None };
    assert_eq!(none.key(), "");
    assert_eq!(none.index(), -1);
    assert_eq!(none.url(), "https://example.com/x");
}

#[test]
fn inactive_document_rejects_navigate_before_parsing() {
    let mut nav = navigation_with(1, Some(0));
    nav.document.fully_active = false;
    let (r, url) = nav.navigate("http://[::1", NavigationHistoryBehavior::Auto);
    assert_early(&r, DomError::InvalidState);
    assert!(url.is_none());
    let (r, _) = nav.navigate("javascript:void(0)", NavigationHistoryBehavior::Push);
    assert_early(&r, DomError::InvalidState);
    nav.document.fully_active = true;
    nav.document.unload_counter = 2;
    let (r, _) = nav.navigate("http://[::1", NavigationHistoryBehavior::Auto);
    assert_early(&r, DomError::InvalidState);
    assert!(nav.upcoming_non_traverse_method_tracker.is_none());
}
