use session_history::abort::{AbortController, AbortReason, AbortSignals};
use session_history::dom_misc::AbortAlgorithm;
use session_history::navigation::{Promise, PromiseState};

fn promise(id: u64) -> Promise {
    Promise { id, state: PromiseState::Pending, handled: false }
}

#[test]
fn abort_creates_aborted_signal() {
    let mut signals = AbortSignals::new();
    let s = signals.abort(None);
    assert_eq!(signals.signals[s].reason, Some(AbortReason::AbortError));
    assert!(signals.signals[s].aborted());
    assert_eq!(signals.signals[s].throw_if_aborted(), Err(AbortReason::AbortError));
    let t = signals.abort(Some(AbortReason::Value(3)));
    assert_eq!(signals.signals[t].reason, Some(AbortReason::Value(3)));
}

#[test]
fn dependent_signal_follows_sources() {
    let mut signals = AbortSignals::new();
    let a = AbortController::new(&mut signals);
    let b = AbortController::new(&mut signals);
    let any = signals.create_dependent_signal(&vec![a.signal(), b.signal()]);
    assert!(signals.signals[any].dependent);
    assert_eq!(signals.signals[any].source_signals, vec![a.signal, b.signal]);
    assert_eq!(signals.signals[a.signal].dependent_signals, vec![any]);
    let nested = signals.create_dependent_signal(&vec![any]);
    assert_eq!(signals.signals[nested].source_signals, vec![a.signal, b.signal]);
    signals.add_abort_algorithms(any, vec![AbortAlgorithm::ResolveUndefined(promise(1)), AbortAlgorithm::AbortFetch]);
    signals.add_abort_algorithms(a.signal, vec![AbortAlgorithm::StreamAbort(promise(2))]);
    let (aborted, algorithms) = a.abort(&mut signals, Some(AbortReason::Value(9)));
    assert_eq!(aborted, vec![a.signal, any, nested]);
    assert_eq!(algorithms.len(), 3);
    assert_eq!(algorithms[0], AbortAlgorithm::StreamAbort(promise(2)));
    assert_eq!(signals.signals[any].reason, Some(AbortReason::Value(9)));
    assert!(signals.signals[any].abort_algorithms.is_empty());
    assert!(!signals.signals[b.signal].aborted());
    let (again, _) = a.abort(&mut signals, None);
    assert!(again.is_empty());
}

#[test]
fn dependent_on_aborted_signal_is_aborted() {
    let mut signals = AbortSignals::new();
    let a = signals.new_signal(false);
    let b = signals.abort(Some(AbortReason::Value(5)));
    let any = signals.create_dependent_signal(&vec![a, b]);
    assert_eq!(signals.signals[any].reason, Some(AbortReason::Value(5)));
    assert!(!signals.signals[any].dependent);
    assert!(signals.signals[any].source_signals.is_empty());
}

#[test]
fn algorithms_are_not_added_after_abort() {
    let mut signals = AbortSignals::new();
    let a = signals.abort(None);
    signals.add_abort_algorithms(a, vec![AbortAlgorithm::AbortFetch]);
    assert!(signals.signals[a].abort_algorithms.is_empty());
}

#[test]
fn resolve_undefined_fulfils_its_promise() {
    let p = promise(4);
    assert_eq!(AbortAlgorithm::ResolveUndefined(p).exec(), Some(Promise { state: PromiseState::Fulfilled, ..p }));
    assert_eq!(AbortAlgorithm::AbortFetch.exec(), None);
}
