//! The Navigation API: its entry list, and the method trackers that tie each call to the
//! traversal or navigation it starts.
use vstd::prelude::*;
use indexmap::IndexMap;
use crate::navigable::HistoryApplicationResult;
use crate::session_history::{copy_optional_string, SessionHistoryEntry, SessionHistoryEntryStep};

verus! {

#[verifier::external_type_specification]
#[verifier::external_body]
#[verifier::reject_recursive_types(K)]
#[verifier::reject_recursive_types(V)]
#[verifier::reject_recursive_types(S)]
pub struct ExIndexMap<K, V, S>(IndexMap<K, V, S>);

/// The exceptions that the Navigation API rejects its promises with.
#[derive(Clone, Copy, Debug, PartialEq, Eq, Structural)]
pub enum DomError {
    InvalidState,
    Security,
    Abort,
    Syntax,
    NotSupported,
    Type,
    Data,
    Range,
}

#[derive(Clone, Copy, Debug, PartialEq, Eq, Structural)]
pub enum PromiseState {
    Pending,
    Fulfilled,
    Rejected(DomError),
}

/// A single-resolution promise, named by an id that its navigation handed out.
#[derive(Clone, Copy, Debug, PartialEq, Eq, Structural)]
pub struct Promise {
    pub id: u64,
    pub state: PromiseState,
    /// Marked as handled: a rejection is not reported as unhandled.
    pub handled: bool,
}

/// What a Navigation API method returns: the promise for the commit of the navigation and
/// the one for its end.
#[derive(Clone, Copy, Debug, PartialEq, Eq, Structural)]
pub struct NavigationResult {
    pub committed: Promise,
    pub finished: Promise,
}

/// Follows one Navigation API call until it settles.
#[derive(Clone, Copy, Debug, PartialEq, Eq, Structural)]
pub struct NavigationApiMethodTracker {
    pub committed_promise: Promise,
    pub finished_promise: Promise,
    /// The index of the entry that the call committed to, once it has.
    pub committed_to_entry: Option<usize>,
}

/// Whether a navigation pushes a new entry or replaces the current one.
#[derive(Clone, Copy, Debug, PartialEq, Eq, Structural)]
pub enum NavigationHistoryBehavior {
    Auto,
    Push,
    Replace,
}

/// What the navigation knows of its window's document.
pub struct DocumentStatus {
    pub fully_active: bool,
    pub unload_counter: u64,
    pub is_initial_about_blank: bool,
    pub origin_is_opaque: bool,
    /// The document's URL, serialized.
    pub url: String,
}

/// Upcoming traverse trackers by key.
pub type TrackerMap = IndexMap<String, NavigationApiMethodTracker>;

/// The contents of a map of upcoming traverse trackers, by key.
pub uninterp spec fn traverse_trackers(m: IndexMap<String, NavigationApiMethodTracker>) -> Map<
    Seq<char>,
    NavigationApiMethodTracker,
>;

/// Relies on `IndexMap::new`: the map is empty.
#[verifier::external_body]
fn new_tracker_map() -> (r: TrackerMap)
    ensures
        forall|k: Seq<char>| !(#[trigger] traverse_trackers(r).contains_key(k)),
{
    IndexMap::new()
}

/// Relies on `IndexMap::get`: the value stored under `key`, if any.
#[verifier::external_body]
fn tracker_for(m: &IndexMap<String, NavigationApiMethodTracker>, key: &String) -> (r: Option<
    NavigationApiMethodTracker,
>)
    ensures
        traverse_trackers(*m).contains_key(key@) ==> r == Some(traverse_trackers(*m)[key@]),
        !traverse_trackers(*m).contains_key(key@) ==> r is None,
{
    m.get(key).copied()
}

/// Relies on `IndexMap::insert_sorted`: afterwards `key` maps to `value`, and every other key
/// keeps its value.
#[verifier::external_body]
fn insert_tracker(
    m: &mut IndexMap<String, NavigationApiMethodTracker>,
    key: String,
    value: NavigationApiMethodTracker,
)
    ensures
        traverse_trackers(*final(m)) == traverse_trackers(*old(m)).insert(key@, value),
{
    m.insert_sorted(key, value);
}

/// Relies on `IndexMap::shift_remove`: removes `key` and returns its value, if it was there.
#[verifier::external_body]
fn remove_tracker(m: &mut IndexMap<String, NavigationApiMethodTracker>, key: &String) -> (r:
    Option<NavigationApiMethodTracker>)
    ensures
        traverse_trackers(*final(m)) == traverse_trackers(*old(m)).remove(key@),
        traverse_trackers(*old(m)).contains_key(key@) ==> r == Some(
            traverse_trackers(*old(m))[key@],
        ),
        !traverse_trackers(*old(m)).contains_key(key@) ==> r is None,
{
    m.shift_remove(key)
}

/// The URL that `input` names relative to `base`, and its scheme, both serialized; none where
/// `base` or `input` does not parse.
pub uninterp spec fn resolved_url(base: Seq<char>, input: Seq<char>) -> Option<(Seq<char>, Seq<char>)>;

/// Relies on `url::Url::parse` for the base and `Url::join` for the input, then on `as_str`
/// and `scheme` for the parts of the result.
#[verifier::external_body]
pub(crate) fn resolve_url(base: &str, input: &str) -> (r: Option<(String, String)>)
    ensures
        match r {
            Some((u, s)) => resolved_url(base@, input@) == Some((u@, s@)),
            None => resolved_url(base@, input@) is None,
        },
{
    url::Url::parse(base).and_then(|b| b.join(input)).ok().map(
        |u| (u.as_str().to_owned(), u.scheme().to_owned()),
    )
}


/// A session history entry as the Navigation API shows it.
pub struct NavigationHistoryEntry {
    pub url: Option<String>,
    pub key: String,
    pub id: String,
    pub index: i64,
}

impl NavigationHistoryEntry {
    pub fn new(url: Option<String>, key: String, id: String, index: i64) -> (r: NavigationHistoryEntry)
        ensures
            r.url == url,
            r.key == key,
            r.id == id,
            r.index == index,
    {
        NavigationHistoryEntry { url, key, id, index }
    }

    pub fn key(&self) -> (r: String)
        ensures
            r == self.key,
    {
        self.key.clone()
    }

    pub fn id(&self) -> (r: String)
        ensures
            r == self.id,
    {
        self.id.clone()
    }

    pub fn index(&self) -> (r: i64)
        ensures
            r == self.index,
    {
        self.index
    }

    /// The entry's URL; none where the document is not fully active.
    pub fn get_url(&self, document_fully_active: bool) -> (r: Option<String>)
        ensures
            r == (if document_fully_active {
                self.url
            } else {
                None
            }),
    {
        if !document_fully_active {
            return None;
        }
        copy_optional_string(&self.url)
    }

    /// A copy equal to `self`.
    pub fn duplicate(&self) -> (r: NavigationHistoryEntry)
        ensures
            r == *self,
    {
        NavigationHistoryEntry {
            url: copy_optional_string(&self.url),
            key: self.key.clone(),
            id: self.id.clone(),
            index: self.index,
        }
    }
}

/// Where a navigation is headed: its URL, and the entry it goes to, if any.
pub struct NavigationDestination {
    pub url: String,
    pub entry: Option<NavigationHistoryEntry>,
    pub same_document: bool,
    pub state: Option<String>,
}

impl NavigationDestination {
    pub fn url(&self) -> (r: String)
        ensures
            r == self.url,
    {
        self.url.clone()
    }

    /// The entry's key, or the empty string where there is no entry.
    pub fn key(&self) -> (r: String)
        ensures
            match self.entry {
                Some(e) => r == e.key,
                None => r@.len() == 0,
            },
    {
        match &self.entry {
            Some(e) => e.key(),
            None => String::new(),
        }
    }

    /// The entry's id, or the empty string where there is no entry.
    pub fn id(&self) -> (r: String)
        ensures
            match self.entry {
                Some(e) => r == e.id,
                None => r@.len() == 0,
            },
    {
        match &self.entry {
            Some(e) => e.id(),
            None => String::new(),
        }
    }

    /// The entry's index, or -1 where there is no entry.
    pub fn index(&self) -> (r: i64)
        ensures
            match self.entry {
                Some(e) => r == e.index,
                None => r == -1,
            },
    {
        match &self.entry {
            Some(e) => e.index(),
            None => -1,
        }
    }

    pub fn same_document(&self) -> (r: bool)
        ensures
            r == self.same_document,
    {
        self.same_document
    }
}

/// Entries and events are disabled for a document that is not fully active, is the initial
/// about:blank document, or has an opaque origin.
pub open spec fn entries_and_events_disabled(d: DocumentStatus) -> bool {
    !d.fully_active || d.is_initial_about_blank || d.origin_is_opaque
}

/// A push is asked for where the navigation must replace: the URL's scheme is javascript,
/// or the document is the initial about:blank one.
pub open spec fn push_must_replace(history: NavigationHistoryBehavior, scheme: Seq<char>, initial_about_blank: bool) -> bool {
    history == NavigationHistoryBehavior::Push && (scheme == "javascript"@ || initial_about_blank)
}

/// The id handed out after `id`.
pub open spec fn next_id(id: u64) -> u64 {
    if id == u64::MAX {
        0
    } else {
        (id + 1) as u64
    }
}

/// `r` is an early error result for `e`: one promise, rejected with `e`, stands for both.
pub open spec fn is_early_error(r: NavigationResult, e: DomError) -> bool {
    r.committed == r.finished && r.committed.state == PromiseState::Rejected(e)
}

/// The result derived from a method tracker: its two promises.
pub open spec fn derived_result(t: NavigationApiMethodTracker) -> NavigationResult {
    NavigationResult { committed: t.committed_promise, finished: t.finished_promise }
}

/// The tracker that a navigation whose next promise id is `id` creates: both promises pending,
/// the finished one marked as handled.
pub open spec fn fresh_tracker(id: u64) -> NavigationApiMethodTracker {
    NavigationApiMethodTracker {
        committed_promise: Promise { id, state: PromiseState::Pending, handled: false },
        finished_promise: Promise { id: next_id(id), state: PromiseState::Pending, handled: true },
        committed_to_entry: None,
    }
}

/// The per-window facade of the Navigation API.
pub struct Navigation {
    pub document: DocumentStatus,
    pub entry_list: Vec<NavigationHistoryEntry>,
    pub current_entry_index: Option<usize>,
    pub focus_changed: bool,
    pub suppress_scroll: bool,
    pub ongoing_method_tracker: Option<NavigationApiMethodTracker>,
    pub upcoming_non_traverse_method_tracker: Option<NavigationApiMethodTracker>,
    pub upcoming_traverse_method_tracker: TrackerMap,
    /// The id of the next promise this navigation creates.
    pub next_promise_id: u64,
}

impl Navigation {
    /// The upcoming traverse trackers, by key.
    pub open spec fn trackers(&self) -> Map<Seq<char>, NavigationApiMethodTracker> {
        traverse_trackers(self.upcoming_traverse_method_tracker)
    }

    /// The key of the current entry, where entries are enabled and the index is in range.
    pub open spec fn current_key(&self) -> Option<Seq<char>> {
        if entries_and_events_disabled(self.document) {
            None
        } else {
            match self.current_entry_index {
                Some(i) => if i < self.entry_list@.len() {
                    Some(self.entry_list@[i as int].key@)
                } else {
                    None
                },
                None => None,
            }
        }
    }

    /// `n` is `self` with only the next promise id advanced by `k`.
    pub open spec fn advanced_by(&self, k: nat, n: Navigation) -> bool {
        &&& n.next_promise_id == (if k == 0 { self.next_promise_id } else if k == 1 { next_id(self.next_promise_id) } else { next_id(next_id(self.next_promise_id)) })
        &&& n.document == self.document
        &&& n.entry_list == self.entry_list
        &&& n.current_entry_index == self.current_entry_index
        &&& n.focus_changed == self.focus_changed
        &&& n.suppress_scroll == self.suppress_scroll
        &&& n.ongoing_method_tracker == self.ongoing_method_tracker
        &&& n.upcoming_non_traverse_method_tracker == self.upcoming_non_traverse_method_tracker
        &&& n.upcoming_traverse_method_tracker == self.upcoming_traverse_method_tracker
    }

    pub fn new(document: DocumentStatus) -> (r: Navigation)
        ensures
            r.document == document,
            r.entry_list@.len() == 0,
            r.current_entry_index.is_none(),
            !r.focus_changed,
            !r.suppress_scroll,
            r.ongoing_method_tracker.is_none(),
            r.upcoming_non_traverse_method_tracker.is_none(),
            forall|k: Seq<char>| !(#[trigger] r.trackers().contains_key(k)),
            r.next_promise_id == 0,
    {
        Navigation {
            document,
            entry_list: Vec::new(),
            current_entry_index: None,
            focus_changed: false,
            suppress_scroll: false,
            ongoing_method_tracker: None,
            upcoming_non_traverse_method_tracker: None,
            upcoming_traverse_method_tracker: new_tracker_map(),
            next_promise_id: 0,
        }
    }

    pub fn has_entries_and_events_disabled(&self) -> (r: bool)
        ensures
            r == entries_and_events_disabled(self.document),
    {
        !self.document.fully_active || self.document.is_initial_about_blank
            || self.document.origin_is_opaque
    }

    /// A new promise in the given state, with the next id.
    fn new_promise(&mut self, state: PromiseState, handled: bool) -> (p: Promise)
        ensures
            p == (Promise { id: old(self).next_promise_id, state, handled }),
            old(self).advanced_by(1, *final(self)),
    {
        let id = self.next_promise_id;
        self.next_promise_id = if id == u64::MAX {
            0
        } else {
            id + 1
        };
        Promise { id, state, handled }
    }

    /// An early error result for `error`: one promise, rejected with it, for both members.
    pub fn early_error_result(&mut self, error: DomError) -> (r: NavigationResult)
        ensures
            is_early_error(r, error),
            r.committed.id == old(self).next_promise_id,
            !r.committed.handled,
            old(self).advanced_by(1, *final(self)),
    {
        let promise = self.new_promise(PromiseState::Rejected(error), false);
        NavigationResult { committed: promise, finished: promise }
    }

    /// The result derived from `tracker`: its committed and finished promises.
    pub fn method_tracker_derived_result(&self, tracker: NavigationApiMethodTracker) -> (r:
        NavigationResult)
        ensures
            r == derived_result(tracker),
    {
        NavigationResult { committed: tracker.committed_promise, finished: tracker.finished_promise }
    }

    /// A new tracker: committed and finished promises, pending, the finished one marked as
    /// handled.
    fn new_method_tracker(&mut self) -> (t: NavigationApiMethodTracker)
        ensures
            t == fresh_tracker(old(self).next_promise_id),
            old(self).advanced_by(2, *final(self)),
    {
        let committed_promise = self.new_promise(PromiseState::Pending, false);
        let finished_promise = self.new_promise(PromiseState::Pending, true);
        NavigationApiMethodTracker { committed_promise, finished_promise, committed_to_entry: None }
    }

    /// Registers a new tracker under `key` in the upcoming traverse trackers and returns it.
    pub fn add_an_upcoming_traverse_api_method_tracker(&mut self, key: String) -> (t:
        NavigationApiMethodTracker)
        ensures
            t == fresh_tracker(old(self).next_promise_id),
            final(self).trackers() == old(self).trackers().insert(key@, t),
            final(self).next_promise_id == next_id(next_id(old(self).next_promise_id)),
            final(self).document == old(self).document,
            final(self).entry_list == old(self).entry_list,
            final(self).current_entry_index == old(self).current_entry_index,
            final(self).upcoming_non_traverse_method_tracker
                == old(self).upcoming_non_traverse_method_tracker,
            final(self).ongoing_method_tracker == old(self).ongoing_method_tracker,
            final(self).focus_changed == old(self).focus_changed,
            final(self).suppress_scroll == old(self).suppress_scroll,
    {
        let tracker = self.new_method_tracker();
        insert_tracker(&mut self.upcoming_traverse_method_tracker, key, tracker);
        tracker
    }

    /// Creates a tracker and, unless entries and events are disabled, installs it as the
    /// upcoming non-traverse tracker. Returns it either way.
    pub fn maybe_set_the_upcoming_non_traverse_api_method_tracker(&mut self) -> (t:
        NavigationApiMethodTracker)
        ensures
            t == fresh_tracker(old(self).next_promise_id),
            final(self).upcoming_non_traverse_method_tracker == (if entries_and_events_disabled(
                old(self).document,
            ) {
                old(self).upcoming_non_traverse_method_tracker
            } else {
                Some(t)
            }),
            final(self).next_promise_id == next_id(next_id(old(self).next_promise_id)),
            final(self).document == old(self).document,
            final(self).entry_list == old(self).entry_list,
            final(self).current_entry_index == old(self).current_entry_index,
            final(self).upcoming_traverse_method_tracker == old(self).upcoming_traverse_method_tracker,
            final(self).ongoing_method_tracker == old(self).ongoing_method_tracker,
            final(self).focus_changed == old(self).focus_changed,
            final(self).suppress_scroll == old(self).suppress_scroll,
    {
        let tracker = self.new_method_tracker();
        if !self.has_entries_and_events_disabled() {
            self.upcoming_non_traverse_method_tracker = Some(tracker);
        }
        tracker
    }

    /// The entry list, or an empty list where entries and events are disabled.
    pub fn entries(&self) -> (r: Vec<NavigationHistoryEntry>)
        ensures
            entries_and_events_disabled(self.document) ==> r@.len() == 0,
            !entries_and_events_disabled(self.document) ==> r@ == self.entry_list@,
    {
        let mut r: Vec<NavigationHistoryEntry> = Vec::new();
        if self.has_entries_and_events_disabled() {
            return r;
        }
        let mut i: usize = 0;
        while i < self.entry_list.len()
            invariant
                i <= self.entry_list@.len(),
                r@ == self.entry_list@.subrange(0, i as int),
            decreases self.entry_list@.len() - i,
        {
            r.push(self.entry_list[i].duplicate());
            assert(r@ =~= self.entry_list@.subrange(0, i + 1));
            i += 1;
        }
        assert(r@ =~= self.entry_list@);
        r
    }

    /// The current entry: none where entries and events are disabled or there is no current
    /// index.
    pub fn get_current_entry(&self) -> (r: Option<NavigationHistoryEntry>)
        ensures
            r matches Some(e) ==> self.current_key() == Some(e.key@) && match self.current_entry_index {
                Some(i) => e == self.entry_list@[i as int],
                None => false,
            },
            r is None ==> self.current_key() is None,
    {
        if self.has_entries_and_events_disabled() {
            return None;
        }
        match self.current_entry_index {
            Some(i) => if i < self.entry_list.len() {
                Some(self.entry_list[i].duplicate())
            } else {
                None
            },
            None => None,
        }
    }

    /// `r` and `n` are what a navigation API traversal to `key` from `self` returns and leaves.
    pub open spec fn traversal_performed(&self, key: Seq<char>, r: NavigationResult, n: Navigation) -> bool {
        if !self.document.fully_active || self.document.unload_counter > 0 {
            &&& is_early_error(r, DomError::InvalidState)
            &&& r.committed.id == self.next_promise_id
            &&& self.advanced_by(1, n)
        } else if self.current_key() == Some(key) {
            &&& r.committed == r.finished
            &&& r.committed == (Promise {
                id: self.next_promise_id,
                state: PromiseState::Fulfilled,
                handled: false,
            })
            &&& self.advanced_by(1, n)
        } else if self.trackers().contains_key(key) {
            &&& r == derived_result(self.trackers()[key])
            &&& n == *self
        } else {
            &&& r == derived_result(fresh_tracker(self.next_promise_id))
            &&& n.trackers() == self.trackers().insert(key, fresh_tracker(self.next_promise_id))
            &&& n.next_promise_id == next_id(next_id(self.next_promise_id))
            &&& n.document == self.document
            &&& n.entry_list == self.entry_list
            &&& n.current_entry_index == self.current_entry_index
            &&& n.focus_changed == self.focus_changed
            &&& n.suppress_scroll == self.suppress_scroll
            &&& n.ongoing_method_tracker == self.ongoing_method_tracker
            &&& n.upcoming_non_traverse_method_tracker == self.upcoming_non_traverse_method_tracker
        }
    }

    /// Performs a navigation API traversal to the entry whose key is `key`. Rejects early with
    /// an invalid-state error where the document is not fully active or is unloading; resolves
    /// at once where `key` is the current entry's; hands back the result of the traversal
    /// already scheduled for `key`, if any; and otherwise registers a new tracker under `key`,
    /// whose traversal steps then run through `run_traversal_steps`.
    pub fn perform_a_navigation_api_traversal(&mut self, key: &String) -> (r: NavigationResult)
        ensures
            old(self).traversal_performed(key@, r, *final(self)),
    {
        if !self.document.fully_active {
            return self.early_error_result(DomError::InvalidState);
        }
        if self.document.unload_counter > 0 {
            return self.early_error_result(DomError::InvalidState);
        }
        match self.get_current_entry() {
            Some(entry) => {
                if entry.key == *key {
                    let promise = self.new_promise(PromiseState::Fulfilled, false);
                    return NavigationResult { committed: promise, finished: promise };
                }
            },
            None => {},
        }
        match tracker_for(&self.upcoming_traverse_method_tracker, key) {
            Some(tracker) => {
                return self.method_tracker_derived_result(tracker);
            },
            None => {},
        }
        let tracker = self.add_an_upcoming_traverse_api_method_tracker(key.clone());
        self.method_tracker_derived_result(tracker)
    }

    /// Whether a traversal back is possible: entries and events are enabled and the current
    /// index is above 0.
    pub fn can_go_back(&self) -> (r: bool)
        ensures
            r == (!entries_and_events_disabled(self.document) && match self.current_entry_index {
                Some(i) => i > 0,
                None => false,
            }),
    {
        if self.has_entries_and_events_disabled() {
            return false;
        }
        match self.current_entry_index {
            Some(i) => i > 0,
            None => false,
        }
    }

    /// Whether a traversal forward is possible: entries and events are enabled and the current
    /// index is below the last index of the entry list.
    pub fn can_go_forward(&self) -> (r: bool)
        ensures
            r == (!entries_and_events_disabled(self.document) && match self.current_entry_index {
                Some(i) => i + 1 < self.entry_list@.len(),
                None => false,
            }),
    {
        if self.has_entries_and_events_disabled() {
            return false;
        }
        match self.current_entry_index {
            Some(i) => i < self.entry_list.len() && i != self.entry_list.len() - 1,
            None => false,
        }
    }

    /// Traverses to the entry before the current one.
    pub fn back(&mut self) -> (r: NavigationResult)
        ensures
            match old(self).current_entry_index {
                Some(i) if 0 < i && i <= old(self).entry_list@.len() => old(self).traversal_performed(
                    old(self).entry_list@[i - 1].key@,
                    r,
                    *final(self),
                ),
                _ => is_early_error(r, DomError::InvalidState) && old(self).advanced_by(
                    1,
                    *final(self),
                ),
            },
            !old(self).document.fully_active ==> is_early_error(r, DomError::InvalidState)
                && final(self).entry_list == old(self).entry_list,
    {
        match self.current_entry_index {
            Some(i) => {
                if 0 < i && i <= self.entry_list.len() {
                    let key = self.entry_list[i - 1].key();
                    self.perform_a_navigation_api_traversal(&key)
                } else {
                    self.early_error_result(DomError::InvalidState)
                }
            },
            None => self.early_error_result(DomError::InvalidState),
        }
    }

    /// Traverses to the entry after the current one.
    pub fn forward(&mut self) -> (r: NavigationResult)
        ensures
            match old(self).current_entry_index {
                Some(i) if i + 1 < old(self).entry_list@.len() => old(self).traversal_performed(
                    old(self).entry_list@[i + 1].key@,
                    r,
                    *final(self),
                ),
                _ => is_early_error(r, DomError::InvalidState) && old(self).advanced_by(
                    1,
                    *final(self),
                ),
            },
            !old(self).document.fully_active ==> is_early_error(r, DomError::InvalidState)
                && final(self).entry_list == old(self).entry_list,
    {
        match self.current_entry_index {
            Some(i) => {
                if i < self.entry_list.len() && i + 1 < self.entry_list.len() {
                    let key = self.entry_list[i + 1].key();
                    self.perform_a_navigation_api_traversal(&key)
                } else {
                    self.early_error_result(DomError::InvalidState)
                }
            },
            None => self.early_error_result(DomError::InvalidState),
        }
    }

    /// Some entry of the list has the key `key`.
    pub open spec fn lists_key(&self, key: Seq<char>) -> bool {
        exists|j: int| 0 <= j < self.entry_list@.len() && #[trigger] self.entry_list@[j].key@ == key
    }

    /// Traverses to the entry whose key is `key`; rejects early with an invalid-state error
    /// where there is no current entry or no entry has that key.
    pub fn traverse_to(&mut self, key: &String) -> (r: NavigationResult)
        ensures
            old(self).current_entry_index is Some && old(self).lists_key(key@) ==> old(self).traversal_performed(key@, r, *final(self)),
            !(old(self).current_entry_index is Some && old(self).lists_key(key@)) ==> is_early_error(
                r,
                DomError::InvalidState,
            ) && old(self).advanced_by(1, *final(self)),
            !old(self).document.fully_active ==> is_early_error(r, DomError::InvalidState)
                && final(self).entry_list == old(self).entry_list,
    {
        if self.current_entry_index.is_none() {
            return self.early_error_result(DomError::InvalidState);
        }
        let mut i: usize = 0;
        while i < self.entry_list.len()
            invariant
                i <= self.entry_list@.len(),
                *self == *old(self),
                self.current_entry_index is Some,
                forall|j: int| 0 <= j < i ==> #[trigger] self.entry_list@[j].key@ != key@,
            decreases self.entry_list@.len() - i,
        {
            if self.entry_list[i].key == *key {
                assert(self.lists_key(key@)) by {
                    assert(self.entry_list@[i as int].key@ == key@);
                }
                return self.perform_a_navigation_api_traversal(key);
            }
            i += 1;
        }
        self.early_error_result(DomError::InvalidState)
    }

    /// Navigates to `url`, resolved against the document's URL. Rejects early with an
    /// invalid-state error where the document is not fully active or is unloading; then with a
    /// syntax error where the URL does not resolve; then with a not-supported error where a
    /// push is asked for and the navigation must replace (a javascript: URL, or the initial
    /// about:blank document). Otherwise it returns the result derived from a new non-traverse
    /// tracker, and the resolved URL to navigate to.
    pub fn navigate(&mut self, url: &str, history: NavigationHistoryBehavior) -> (r: (
        NavigationResult,
        Option<String>,
    ))
        ensures
            !old(self).document.fully_active ==> is_early_error(r.0, DomError::InvalidState) && r.1 is None
                && old(self).advanced_by(1, *final(self)),
            old(self).document.unload_counter > 0 ==> is_early_error(r.0, DomError::InvalidState) && r.1 is None
                && old(self).advanced_by(1, *final(self)),
            old(self).document.fully_active && old(self).document.unload_counter == 0 ==> match resolved_url(
                old(self).document.url@,
                url@,
            ) {
                None => is_early_error(r.0, DomError::Syntax) && r.1 is None && old(self).advanced_by(
                    1,
                    *final(self),
                ),
                Some((u, scheme)) => if push_must_replace(
                    history,
                    scheme,
                    old(self).document.is_initial_about_blank,
                ) {
                    is_early_error(r.0, DomError::NotSupported) && r.1 is None && old(self).advanced_by(1, *final(self))
                } else {
                    &&& r.0 == derived_result(fresh_tracker(old(self).next_promise_id))
                    &&& r.1 matches Some(v) && v@ == u
                    &&& final(self).upcoming_non_traverse_method_tracker == (if entries_and_events_disabled(
                        old(self).document,
                    ) {
                        old(self).upcoming_non_traverse_method_tracker
                    } else {
                        Some(fresh_tracker(old(self).next_promise_id))
                    })
                    &&& final(self).next_promise_id == next_id(next_id(old(self).next_promise_id))
                    &&& final(self).entry_list == old(self).entry_list
                    &&& final(self).current_entry_index == old(self).current_entry_index
                    &&& final(self).trackers() == old(self).trackers()
                },
            },
    {
        if !self.document.fully_active || self.document.unload_counter > 0 {
            return (self.early_error_result(DomError::InvalidState), None);
        }
        let resolved = resolve_url(self.document.url.as_str(), url);
        match resolved {
            None => (self.early_error_result(DomError::Syntax), None),
            Some((u, scheme)) => {
                let javascript = "javascript".to_owned();
                if history == NavigationHistoryBehavior::Push && (scheme == javascript
                    || self.document.is_initial_about_blank) {
                    return (self.early_error_result(DomError::NotSupported), None);
                }
                let tracker = self.maybe_set_the_upcoming_non_traverse_api_method_tracker();
                (self.method_tracker_derived_result(tracker), Some(u))
            },
        }
    }

    /// Reloads the document: rejects early with an invalid-state error where it is not fully
    /// active or is unloading, and otherwise returns the result derived from a new
    /// non-traverse tracker.
    pub fn reload(&mut self) -> (r: NavigationResult)
        ensures
            !old(self).document.fully_active || old(self).document.unload_counter > 0 ==> is_early_error(
                r,
                DomError::InvalidState,
            ) && old(self).advanced_by(1, *final(self)),
            old(self).document.fully_active && old(self).document.unload_counter == 0 ==> {
                &&& r == derived_result(fresh_tracker(old(self).next_promise_id))
                &&& final(self).upcoming_non_traverse_method_tracker == (if entries_and_events_disabled(
                    old(self).document,
                ) {
                    old(self).upcoming_non_traverse_method_tracker
                } else {
                    Some(fresh_tracker(old(self).next_promise_id))
                })
                &&& final(self).next_promise_id == next_id(next_id(old(self).next_promise_id))
                &&& final(self).entry_list == old(self).entry_list
                &&& final(self).current_entry_index == old(self).current_entry_index
                &&& final(self).trackers() == old(self).trackers()
            },
    {
        if !self.document.fully_active || self.document.unload_counter > 0 {
            return self.early_error_result(DomError::InvalidState);
        }
        let tracker = self.maybe_set_the_upcoming_non_traverse_api_method_tracker();
        self.method_tracker_derived_result(tracker)
    }

    /// Fails with an invalid-state error where there is no current entry.
    pub fn update_current_entry(&self) -> (r: Result<(), DomError>)
        ensures
            r is Err <==> self.current_key() is None,
            r matches Err(e) ==> e == DomError::InvalidState,
    {
        match self.get_current_entry() {
            Some(_) => Ok(()),
            None => Err(DomError::InvalidState),
        }
    }

    /// Settles the upcoming traverse tracker for `key`, if there is one: removes it and returns
    /// it with its promises settled as `result` asks.
    pub fn settle_traversal(&mut self, key: &String, result: HistoryApplicationResult) -> (r:
        Option<NavigationApiMethodTracker>)
        ensures
            final(self).trackers() == old(self).trackers().remove(key@),
            old(self).trackers().contains_key(key@) ==> r == Some(
                settled(old(self).trackers()[key@], result),
            ),
            !old(self).trackers().contains_key(key@) ==> r is None,
            final(self).entry_list == old(self).entry_list,
            final(self).document == old(self).document,
            final(self).next_promise_id == old(self).next_promise_id,
    {
        match remove_tracker(&mut self.upcoming_traverse_method_tracker, key) {
            Some(t) => {
                let mut t = t;
                match result {
                    HistoryApplicationResult::Applied => {
                        t.committed_promise.state = PromiseState::Fulfilled;
                        t.finished_promise.state = PromiseState::Fulfilled;
                    },
                    HistoryApplicationResult::CancelledByBeforeUnload => {
                        t.finished_promise.state = PromiseState::Rejected(DomError::Abort);
                    },
                    HistoryApplicationResult::InitiatorDisallowed => {
                        t.finished_promise.state = PromiseState::Rejected(DomError::Security);
                    },
                }
                Some(t)
            },
            None => None,
        }
    }

    /// The session history traversal steps of a traversal to `key`, run on the traversable
    /// with `navigable_entries`, the navigable's entries, and `active_key`, its active entry's
    /// key. Where no entry with a recorded step has the key, the tracker for `key` settles with
    /// its finished promise rejected with an invalid-state error.
    pub fn run_traversal_steps(
        &mut self,
        key: &String,
        navigable_entries: &Vec<SessionHistoryEntry>,
        active_key: &String,
    ) -> (r: TraversalSteps)
        ensures
            match r {
                TraversalSteps::ApplyStep(step) => {
                    &&& key@ != active_key@
                    &&& exists|j: int|
                        0 <= j < navigable_entries@.len() && #[trigger] navigable_entries@[j].navigation_api_key@
                            == key@ && navigable_entries@[j].step
                            == SessionHistoryEntryStep::Integer(step)
                    &&& *final(self) == *old(self)
                },
                TraversalSteps::AlreadyActive => {
                    &&& key@ == active_key@
                    &&& *final(self) == *old(self)
                },
                TraversalSteps::NoSuchEntry(t) => {
                    &&& forall|j: int|
                        0 <= j < navigable_entries@.len() && #[trigger] navigable_entries@[j].navigation_api_key@
                            == key@ ==> navigable_entries@[j].step == SessionHistoryEntryStep::Pending
                    &&& final(self).trackers() == old(self).trackers().remove(key@)
                    &&& old(self).trackers().contains_key(key@) ==> t == Some(
                        rejected_finished(old(self).trackers()[key@], DomError::InvalidState),
                    )
                    &&& !old(self).trackers().contains_key(key@) ==> t is None
                    &&& final(self).entry_list == old(self).entry_list
                    &&& final(self).next_promise_id == old(self).next_promise_id
                },
            },
    {
        let mut i: usize = 0;
        while i < navigable_entries.len()
            invariant
                i <= navigable_entries@.len(),
                forall|j: int|
                    0 <= j < i && #[trigger] navigable_entries@[j].navigation_api_key@ == key@
                        ==> navigable_entries@[j].step == SessionHistoryEntryStep::Pending,
            decreases navigable_entries@.len() - i,
        {
            if navigable_entries[i].navigation_api_key == *key {
                match navigable_entries[i].step {
                    SessionHistoryEntryStep::Integer(step) => {
                        if *key == *active_key {
                            return TraversalSteps::AlreadyActive;
                        }
                        assert(navigable_entries@[i as int].navigation_api_key@ == key@);
                        return TraversalSteps::ApplyStep(step);
                    },
                    SessionHistoryEntryStep::Pending => {},
                }
            }
            i += 1;
        }
        let t = match remove_tracker(&mut self.upcoming_traverse_method_tracker, key) {
            Some(t) => {
                let mut t = t;
                t.finished_promise.state = PromiseState::Rejected(DomError::InvalidState);
                Some(t)
            },
            None => None,
        };
        TraversalSteps::NoSuchEntry(t)
    }
}

/// What the session history traversal steps of a traversal ask for next.
#[derive(Clone, Copy, Debug, PartialEq, Eq, Structural)]
pub enum TraversalSteps {
    /// Apply this history step to the traversable, then settle the tracker with the result.
    ApplyStep(usize),
    /// The target entry is the active one: nothing to do.
    AlreadyActive,
    /// No entry has the key: the tracker, if there was one, settled.
    NoSuchEntry(Option<NavigationApiMethodTracker>),
}

/// `t` with its finished promise rejected with `e`.
pub open spec fn rejected_finished(t: NavigationApiMethodTracker, e: DomError) -> NavigationApiMethodTracker {
    NavigationApiMethodTracker {
        finished_promise: Promise { state: PromiseState::Rejected(e), ..t.finished_promise },
        ..t
    }
}

/// `t` settled as `result` asks: both promises fulfilled where the step was applied; the
/// finished one rejected with an abort error where a before-unload handler canceled it, and
/// with a security error where the initiator was not allowed.
pub open spec fn settled(t: NavigationApiMethodTracker, result: HistoryApplicationResult) -> NavigationApiMethodTracker {
    match result {
        HistoryApplicationResult::Applied => NavigationApiMethodTracker {
            committed_promise: Promise { state: PromiseState::Fulfilled, ..t.committed_promise },
            finished_promise: Promise { state: PromiseState::Fulfilled, ..t.finished_promise },
            ..t
        },
        HistoryApplicationResult::CancelledByBeforeUnload => rejected_finished(t, DomError::Abort),
        HistoryApplicationResult::InitiatorDisallowed => rejected_finished(t, DomError::Security),
    }
}

/// A second traversal to the same key, made before the first settles, returns the same
/// tracker-derived result and schedules nothing new, where the first registered or found a
/// tracker (the document was fully active, not unloading, and the key was not the current
/// entry's).
pub proof fn lemma_repeated_traversal_reuses_tracker(
    n0: Navigation,
    n1: Navigation,
    n2: Navigation,
    key: Seq<char>,
    r1: NavigationResult,
    r2: NavigationResult,
)
    requires
        n0.traversal_performed(key, r1, n1),
        n1.traversal_performed(key, r2, n2),
        n0.document.fully_active,
        n0.document.unload_counter == 0,
        n0.current_key() != Some(key),
    ensures
        r2 == r1,
        n2 == n1,
{
    if !n0.trackers().contains_key(key) {
        assert(n1.current_key() == n0.current_key());
        assert(n1.trackers().contains_key(key));
    }
}

} // verus!
