//! Navigables and the traversable navigable that owns their session histories.
use vstd::prelude::*;
use crate::session_history::{
    copy_optional_string, DocumentId, DocumentState, NestedHistory, SessionHistoryEntry,
    SessionHistoryEntryStep,
};

verus! {

/// Tells navigables apart.
#[derive(Clone, Copy, Debug, PartialEq, Eq, Structural, Hash)]
pub struct NavigableId(pub usize);

impl Default for NavigableId {
    fn default() -> (r: NavigableId)
        ensures
            r.0 == 0,
    {
        NavigableId(0)
    }
}

/// The outcome of applying a history step to a traversable.
#[derive(Clone, Copy, Debug, PartialEq, Eq, Structural)]
pub enum HistoryApplicationResult {
    Applied,
    CancelledByBeforeUnload,
    InitiatorDisallowed,
}

/// A browsing context that can present a document. Its parent is named by id: the
/// traversable that owns the tree owns every navigable in it.
pub struct Navigable {
    pub id: NavigableId,
    pub parent: Option<NavigableId>,
    pub is_closing: bool,
    pub is_delaying_load_events: bool,
    /// Set when a traversal changed the current entry.
    pub ongoing_traversal: bool,
    pub current_session_history_entry: Option<SessionHistoryEntry>,
    pub active_session_history_entry: Option<SessionHistoryEntry>,
    pub name: String,
}

impl Navigable {
    /// A navigable that holds no entry yet and has no parent.
    pub fn new(id: NavigableId, name: String) -> (r: Navigable)
        ensures
            r.id == id,
            r.parent.is_none(),
            !r.is_closing,
            !r.is_delaying_load_events,
            !r.ongoing_traversal,
            r.current_session_history_entry.is_none(),
            r.active_session_history_entry.is_none(),
            r.name == name,
    {
        Navigable {
            id,
            parent: None,
            is_closing: false,
            is_delaying_load_events: false,
            ongoing_traversal: false,
            current_session_history_entry: None,
            active_session_history_entry: None,
            name,
        }
    }

    /// Initializes the navigable with a new entry for `document_state`, at step 0, with a fresh
    /// random navigation API key: the entry becomes both the current and the active entry.
    pub fn initialize(
        &mut self,
        document_state: DocumentState,
        url: String,
        parent: Option<NavigableId>,
    )
        ensures
            final(self).current_session_history_entry == final(self).active_session_history_entry,
            final(self).current_session_history_entry is Some,
            final(self).current_session_history_entry->0.step == SessionHistoryEntryStep::Integer(0),
            final(self).current_session_history_entry->0.url == url,
            final(self).current_session_history_entry->0.document_state == document_state,
            final(self).parent == parent,
            final(self).id == old(self).id,
            final(self).name == old(self).name,
    {
        let entry = SessionHistoryEntry::new(url, document_state);
        self.install_initial_entry(entry, parent);
    }

    /// As `initialize`, with the given navigation API key.
    pub fn initialize_with_key(
        &mut self,
        document_state: DocumentState,
        url: String,
        navigation_api_key: String,
        parent: Option<NavigableId>,
    )
        ensures
            final(self).current_session_history_entry == final(self).active_session_history_entry,
            final(self).current_session_history_entry == Some(
                SessionHistoryEntry {
                    step: SessionHistoryEntryStep::Integer(0),
                    url,
                    navigation_api_state: None,
                    document_state,
                    navigation_api_key,
                    scroll_restoration_mode: crate::session_history::ScrollRestorationMode::Auto,
                },
            ),
            final(self).parent == parent,
            final(self).id == old(self).id,
            final(self).name == old(self).name,
    {
        let entry = SessionHistoryEntry::with_key(url, document_state, navigation_api_key);
        self.install_initial_entry(entry, parent);
    }

    fn install_initial_entry(&mut self, entry: SessionHistoryEntry, parent: Option<NavigableId>)
        ensures
            final(self).current_session_history_entry == final(self).active_session_history_entry,
            final(self).current_session_history_entry == Some(
                SessionHistoryEntry { step: SessionHistoryEntryStep::Integer(0), ..entry },
            ),
            final(self).parent == parent,
            final(self).id == old(self).id,
            final(self).name == old(self).name,
    {
        let mut entry = entry;
        entry.set_step(0);
        self.active_session_history_entry = Some(entry.duplicate());
        self.current_session_history_entry = Some(entry);
        self.parent = parent;
    }

    /// A top-level navigable is one without a parent.
    pub fn is_top_level(&self) -> (r: bool)
        ensures
            r == self.parent.is_none(),
    {
        self.parent.is_none()
    }

    pub fn active_session_history_entry(&self) -> (r: Option<SessionHistoryEntry>)
        ensures
            r == self.active_session_history_entry,
    {
        match &self.active_session_history_entry {
            Some(e) => Some(e.duplicate()),
            None => None,
        }
    }

    /// The active document is the one that the active entry's document state names.
    pub fn active_document(&self) -> (r: Option<DocumentId>)
        ensures
            r == (match self.active_session_history_entry {
                Some(e) => Some(e.document_state.document_id),
                None => None,
            }),
    {
        match &self.active_session_history_entry {
            Some(e) => Some(e.document_state.document_id),
            None => None,
        }
    }

    /// The target name is the active entry's document state's navigable target name.
    pub fn target_name(&self) -> (r: Option<String>)
        ensures
            r == (match self.active_session_history_entry {
                Some(e) => e.document_state.navigable_target_name,
                None => None,
            }),
    {
        match &self.active_session_history_entry {
            Some(e) => copy_optional_string(&e.document_state.navigable_target_name),
            None => None,
        }
    }
}


/// The recorded step of an entry, if it has one.
pub open spec fn step_of(e: SessionHistoryEntry) -> Option<int> {
    match e.step {
        SessionHistoryEntryStep::Integer(s) => Some(s as int),
        SessionHistoryEntryStep::Pending => None,
    }
}

/// Position `i` of `entries` holds the target entry for `step`: its step is the greatest
/// recorded step not above `step`, and no later entry has that step.
pub open spec fn is_target_index(entries: Seq<SessionHistoryEntry>, step: int, i: int) -> bool {
    &&& 0 <= i < entries.len()
    &&& step_of(entries[i]) is Some
    &&& step_of(entries[i])->0 <= step
    &&& forall|j: int|
        0 <= j < entries.len() && (#[trigger] step_of(entries[j])) is Some && step_of(
            entries[j],
        )->0 <= step ==> step_of(entries[j])->0 < step_of(entries[i])->0 || (step_of(
            entries[j],
        )->0 == step_of(entries[i])->0 && j <= i)
}

/// Some entry of `entries` has a recorded step not above `step`.
pub open spec fn has_entry_at_or_before(entries: Seq<SessionHistoryEntry>, step: int) -> bool {
    exists|j: int|
        0 <= j < entries.len() && (#[trigger] step_of(entries[j])) is Some && step_of(
            entries[j],
        )->0 <= step
}

/// Finds the target history entry for `step`: the entry with the greatest recorded step not
/// above `step`, the last one where several share it.
pub fn target_entry_index(entries: &Vec<SessionHistoryEntry>, step: usize) -> (r: Option<usize>)
    ensures
        r is Some <==> has_entry_at_or_before(entries@, step as int),
        r matches Some(i) ==> is_target_index(entries@, step as int, i as int),
{
    let mut best: Option<usize> = None;
    let mut i: usize = 0;
    while i < entries.len()
        invariant
            i <= entries@.len(),
            best matches Some(b) ==> b < i && step_of(entries@[b as int]) is Some && step_of(
                entries@[b as int],
            )->0 <= step,
            best is None ==> forall|j: int|
                0 <= j < i ==> !((#[trigger] step_of(entries@[j])) is Some && step_of(
                    entries@[j],
                )->0 <= step),
            best matches Some(b) ==> forall|j: int|
                0 <= j < i && (#[trigger] step_of(entries@[j])) is Some && step_of(
                    entries@[j],
                )->0 <= step ==> step_of(entries@[j])->0 < step_of(entries@[b as int])->0 || (
                step_of(entries@[j])->0 == step_of(entries@[b as int])->0 && j <= b),
        decreases entries@.len() - i,
    {
        match entries[i].step {
            SessionHistoryEntryStep::Integer(s) => {
                if s <= step {
                    let better = match best {
                        None => true,
                        Some(b) => match entries[b].step {
                            SessionHistoryEntryStep::Integer(t) => s >= t,
                            SessionHistoryEntryStep::Pending => true,
                        },
                    };
                    if better {
                        best = Some(i);
                    }
                }
            },
            SessionHistoryEntryStep::Pending => {},
        }
        i += 1;
    }
    best
}


/// Whether moving a navigable whose current entry is `current` to `target` changes what it
/// presents: it has no current entry, or the URL or the document differs.
pub open spec fn entry_changes(current: Option<SessionHistoryEntry>, target: SessionHistoryEntry) -> bool {
    match current {
        None => true,
        Some(c) => c.url@ != target.url@ || c.document_state.document_id
            != target.document_state.document_id,
    }
}

/// The navigable after a traversal to `target`.
pub open spec fn moved_to(n: Navigable, target: SessionHistoryEntry) -> Navigable {
    if entry_changes(n.current_session_history_entry, target) {
        Navigable {
            current_session_history_entry: Some(target),
            ongoing_traversal: true,
            ..n
        }
    } else {
        n
    }
}

/// The navigable after a traversal to `step` through the entries `entries`: unchanged where
/// no entry has a step at or before it.
pub open spec fn traversed(n: Navigable, entries: Seq<SessionHistoryEntry>, step: int, after: Navigable) -> bool {
    if has_entry_at_or_before(entries, step) {
        exists|i: int| is_target_index(entries, step, i) && after == moved_to(n, entries[i])
    } else {
        after == n
    }
}

impl Navigable {
    /// Makes `target` the current entry when it changes what the navigable presents, and then
    /// marks the navigation as a traversal.
    pub fn move_to_entry(&mut self, target: SessionHistoryEntry) -> (changed: bool)
        ensures
            changed == entry_changes(old(self).current_session_history_entry, target),
            *final(self) == moved_to(*old(self), target),
    {
        let changed = match &self.current_session_history_entry {
            None => true,
            Some(c) => c.url != target.url || c.document_state.document_id.0
                != target.document_state.document_id.0,
        };
        if changed {
            self.current_session_history_entry = Some(target);
            self.ongoing_traversal = true;
        }
        changed
    }
}

/// The steps of `entries[..n]` include `s`.
pub open spec fn recorded_in(entries: Seq<SessionHistoryEntry>, n: int, s: int) -> bool {
    exists|i: int| 0 <= i < n && #[trigger] step_of(entries[i]) == Some(s)
}

/// Each value is below the next one.
pub open spec fn strictly_increasing(v: Seq<usize>) -> bool {
    forall|i: int, j: int| 0 <= i < j < v.len() ==> v[i] < v[j]
}

/// Adds `s` to the strictly increasing `steps`, where it is not there yet.
fn insert_step(steps: &mut Vec<usize>, s: usize)
    requires
        strictly_increasing(old(steps)@),
    ensures
        strictly_increasing(final(steps)@),
        forall|x: usize| final(steps)@.contains(x) <==> (old(steps)@.contains(x) || x == s),
{
    let mut i: usize = 0;
    while i < steps.len() && steps[i] < s
        invariant
            i <= steps@.len(),
            steps@ == old(steps)@,
            forall|j: int| 0 <= j < i ==> steps@[j] < s,
        decreases steps@.len() - i,
    {
        i += 1;
    }
    if i < steps.len() && steps[i] == s {
        assert(steps@[i as int] == s);
        assert(forall|x: usize| steps@.contains(x) <==> (old(steps)@.contains(x) || x == s));
        return;
    }
    let ghost before = steps@;
    steps.insert(i, s);
    assert(steps@ == before.insert(i as int, s));
    assert forall|x: usize| steps@.contains(x) <==> (before.contains(x) || x == s) by {
        if steps@.contains(x) {
            let k = choose|k: int| 0 <= k < steps@.len() && steps@[k] == x;
            if k < i {
                assert(before[k] == x);
            } else if k > i {
                assert(before[k - 1] == x);
            }
        }
        if before.contains(x) {
            let k = choose|k: int| 0 <= k < before.len() && before[k] == x;
            if k < i {
                assert(steps@[k] == x);
            } else {
                assert(steps@[k + 1] == x);
            }
        }
        if x == s {
            assert(steps@[i as int] == x);
        }
    }
    assert(forall|x: usize| steps@.contains(x) <==> (old(steps)@.contains(x) || x == s));
}

/// The entry list is well formed: every entry has a recorded step, the steps never decrease
/// along the list, and no two entries share a navigation API key.
pub open spec fn entries_wf(entries: Seq<SessionHistoryEntry>) -> bool {
    &&& forall|i: int| 0 <= i < entries.len() ==> (#[trigger] step_of(entries[i])) is Some
    &&& forall|i: int, j: int|
        0 <= i < j < entries.len() ==> step_of(entries[i])->0 <= step_of(entries[j])->0
    &&& forall|i: int, j: int|
        0 <= i < j < entries.len() ==> entries[i].navigation_api_key@ != entries[j].navigation_api_key@
}

/// The traversable navigable at the top of a tree: it owns the session history entries of
/// the tree, its own in `session_history_entries` and each descendant's in the nested history
/// that shares the descendant's id.
pub struct TraversableNavigable {
    pub navigable: Navigable,
    pub current_session_history_step: usize,
    pub session_history_entries: Vec<SessionHistoryEntry>,
    pub descendants: Vec<Navigable>,
    pub nested_histories: Vec<NestedHistory>,
}

impl TraversableNavigable {
    /// No two nested histories share an id.
    pub open spec fn wf(&self) -> bool {
        forall|a: int, b: int|
            #![trigger self.nested_histories@[a].id.0, self.nested_histories@[b].id.0]
            0 <= a < self.nested_histories@.len() && 0 <= b < self.nested_histories@.len()
                && self.nested_histories@[a].id.0 == self.nested_histories@[b].id.0 ==> a == b
    }

    /// The position of the nested history of the navigable `id`, if there is one.
    pub open spec fn nested_history_for(&self, id: NavigableId) -> Option<int> {
        if exists|k: int|
            0 <= k < self.nested_histories@.len() && #[trigger] self.nested_histories@[k].id.0
                == id.0 {
            Some(
                choose|k: int|
                    0 <= k < self.nested_histories@.len() && #[trigger] self.nested_histories@[k].id.0
                        == id.0,
            )
        } else {
            None
        }
    }

    /// The session history entries of the navigable `id`.
    pub open spec fn entries_for(&self, id: NavigableId) -> Option<Seq<SessionHistoryEntry>> {
        if id == self.navigable.id {
            Some(self.session_history_entries@)
        } else {
            match self.nested_history_for(id) {
                Some(k) => Some(self.nested_histories@[k].entries@),
                None => None,
            }
        }
    }

    /// Some list of entries of the tree records the step `s`.
    pub open spec fn step_recorded(&self, s: int) -> bool {
        recorded_in(self.session_history_entries@, self.session_history_entries@.len() as int, s)
            || exists|k: int|
            0 <= k < self.nested_histories@.len() && #[trigger] recorded_in(
                self.nested_histories@[k].entries@,
                self.nested_histories@[k].entries@.len() as int,
                s,
            )
    }

    /// `u` is the used step for `step`: the greatest recorded step not above `step`, or 0 when
    /// there is none.
    pub open spec fn is_used_step(&self, step: int, u: int) -> bool {
        if exists|s: int| s <= step && #[trigger] self.step_recorded(s) {
            &&& self.step_recorded(u)
            &&& u <= step
            &&& forall|s: int| s <= step && #[trigger] self.step_recorded(s) ==> s <= u
        } else {
            u == 0
        }
    }

    /// Creates a top-level traversable whose initial entry, at step 0, presents
    /// `document_state`.
    pub fn new(
        id: NavigableId,
        name: String,
        document_state: DocumentState,
        url: String,
        navigation_api_key: String,
    ) -> (r: TraversableNavigable)
        ensures
            r.wf(),
            entries_wf(r.session_history_entries@),
            r.navigable.id == id,
            r.navigable.parent.is_none(),
            r.current_session_history_step == 0,
            r.session_history_entries@.len() == 1,
            Some(r.session_history_entries@[0]) == r.navigable.current_session_history_entry,
            r.navigable.active_session_history_entry == r.navigable.current_session_history_entry,
            r.session_history_entries@[0].step == SessionHistoryEntryStep::Integer(0),
            r.session_history_entries@[0].url == url,
            r.session_history_entries@[0].document_state == document_state,
            r.session_history_entries@[0].navigation_api_key == navigation_api_key,
            r.descendants@.len() == 0,
            r.nested_histories@.len() == 0,
    {
        let mut navigable = Navigable::new(id, name);
        navigable.initialize_with_key(document_state, url, navigation_api_key, None);
        let mut entries: Vec<SessionHistoryEntry> = Vec::new();
        match navigable.active_session_history_entry() {
            Some(e) => entries.push(e),
            None => {},
        }
        TraversableNavigable {
            navigable,
            current_session_history_step: 0,
            session_history_entries: entries,
            descendants: Vec::new(),
            nested_histories: Vec::new(),
        }
    }

    /// Adds every recorded step of `entries` to `steps`.
    fn collect_steps(entries: &Vec<SessionHistoryEntry>, steps: &mut Vec<usize>)
        requires
            strictly_increasing(old(steps)@),
        ensures
            strictly_increasing(final(steps)@),
            forall|x: usize|
                final(steps)@.contains(x) <==> (old(steps)@.contains(x) || recorded_in(
                    entries@,
                    entries@.len() as int,
                    x as int,
                )),
    {
        let mut i: usize = 0;
        while i < entries.len()
            invariant
                i <= entries@.len(),
                strictly_increasing(steps@),
                forall|x: usize|
                    steps@.contains(x) <==> (old(steps)@.contains(x) || recorded_in(
                        entries@,
                        i as int,
                        x as int,
                    )),
            decreases entries@.len() - i,
        {
            let ghost before = steps@;
            match entries[i].step {
                SessionHistoryEntryStep::Integer(s) => {
                    insert_step(steps, s);
                },
                SessionHistoryEntryStep::Pending => {},
            }
            assert forall|x: usize|
                steps@.contains(x) <==> (old(steps)@.contains(x) || recorded_in(
                    entries@,
                    i + 1,
                    x as int,
                )) by {
                if recorded_in(entries@, i + 1, x as int) && !recorded_in(entries@, i as int, x as int) {
                    assert(step_of(entries@[i as int]) == Some(x as int));
                }
                if recorded_in(entries@, i as int, x as int) {
                    let j = choose|j: int| 0 <= j < i && #[trigger] step_of(entries@[j]) == Some(x as int);
                    assert(0 <= j < i + 1 && step_of(entries@[j]) == Some(x as int));
                }
            }
            i += 1;
        }
    }

    /// All recorded steps of the tree's entries, in increasing order, each once.
    pub fn get_all_used_history_steps(&self) -> (r: Vec<usize>)
        ensures
            strictly_increasing(r@),
            forall|x: usize| r@.contains(x) <==> self.step_recorded(x as int),
    {
        let mut steps: Vec<usize> = Vec::new();
        Self::collect_steps(&self.session_history_entries, &mut steps);
        let mut k: usize = 0;
        while k < self.nested_histories.len()
            invariant
                k <= self.nested_histories@.len(),
                strictly_increasing(steps@),
                forall|x: usize|
                    steps@.contains(x) <==> (recorded_in(
                        self.session_history_entries@,
                        self.session_history_entries@.len() as int,
                        x as int,
                    ) || exists|l: int|
                        0 <= l < k && #[trigger] recorded_in(
                            self.nested_histories@[l].entries@,
                            self.nested_histories@[l].entries@.len() as int,
                            x as int,
                        )),
            decreases self.nested_histories@.len() - k,
        {
            Self::collect_steps(&self.nested_histories[k].entries, &mut steps);
            assert forall|x: usize|
                steps@.contains(x) <==> (recorded_in(
                    self.session_history_entries@,
                    self.session_history_entries@.len() as int,
                    x as int,
                ) || exists|l: int|
                    0 <= l < k + 1 && #[trigger] recorded_in(
                        self.nested_histories@[l].entries@,
                        self.nested_histories@[l].entries@.len() as int,
                        x as int,
                    )) by {
                if exists|l: int|
                    0 <= l < k + 1 && #[trigger] recorded_in(
                        self.nested_histories@[l].entries@,
                        self.nested_histories@[l].entries@.len() as int,
                        x as int,
                    ) {
                    let l = choose|l: int|
                        0 <= l < k + 1 && #[trigger] recorded_in(
                            self.nested_histories@[l].entries@,
                            self.nested_histories@[l].entries@.len() as int,
                            x as int,
                        );
                    if l < k {
                        assert(0 <= l < k && recorded_in(
                            self.nested_histories@[l].entries@,
                            self.nested_histories@[l].entries@.len() as int,
                            x as int,
                        ));
                    }
                }
                if recorded_in(
                    self.nested_histories@[k as int].entries@,
                    self.nested_histories@[k as int].entries@.len() as int,
                    x as int,
                ) {
                    assert(0 <= k < k + 1);
                }
            }
            k += 1;
        }
        steps
    }

    /// The used step for `step`: the greatest recorded step not above `step`, or 0 when there
    /// is none.
    pub fn get_the_used_step(&self, step: usize) -> (r: usize)
        ensures
            self.is_used_step(step as int, r as int),
    {
        let steps = self.get_all_used_history_steps();
        let mut found = false;
        let mut best: usize = 0;
        let mut i: usize = 0;
        while i < steps.len()
            invariant
                i <= steps@.len(),
                forall|x: usize| steps@.contains(x) <==> self.step_recorded(x as int),
                found ==> self.step_recorded(best as int) && best <= step,
                !found ==> best == 0,
                forall|j: int| 0 <= j < i && steps@[j] <= step ==> found && steps@[j] <= best,
            decreases steps@.len() - i,
        {
            let v = steps[i];
            assert(steps@.contains(v));
            if v <= step && (!found || v > best) {
                best = v;
                found = true;
            }
            i += 1;
        }
        assert forall|s: int| s <= step && #[trigger] self.step_recorded(s) implies found && s <= best by {
            if s >= 0 {
                let x = s as usize;
                assert(steps@.contains(x));
                let j = choose|j: int| 0 <= j < steps@.len() && steps@[j] == x;
                assert(steps@[j] <= step);
            } else {
                assert(recorded_in(
                    self.session_history_entries@,
                    self.session_history_entries@.len() as int,
                    s,
                ) || exists|l: int|
                    0 <= l < self.nested_histories@.len() && #[trigger] recorded_in(
                        self.nested_histories@[l].entries@,
                        self.nested_histories@[l].entries@.len() as int,
                        s,
                    ));
                if recorded_in(
                    self.session_history_entries@,
                    self.session_history_entries@.len() as int,
                    s,
                ) {
                    let q = choose|q: int|
                        0 <= q < self.session_history_entries@.len() && #[trigger] step_of(
                            self.session_history_entries@[q],
                        ) == Some(s);
                    assert(step_of(self.session_history_entries@[q]) == Some(s));
                } else {
                    let l = choose|l: int|
                        0 <= l < self.nested_histories@.len() && #[trigger] recorded_in(
                            self.nested_histories@[l].entries@,
                            self.nested_histories@[l].entries@.len() as int,
                            s,
                        );
                    let q = choose|q: int|
                        0 <= q < self.nested_histories@[l].entries@.len() && #[trigger] step_of(
                            self.nested_histories@[l].entries@[q],
                        ) == Some(s);
                    assert(step_of(self.nested_histories@[l].entries@[q]) == Some(s));
                }
            }
        }
        best
    }

    /// The position of the nested history of the navigable `id`.
    pub fn find_nested_history(&self, id: NavigableId) -> (r: Option<usize>)
        requires
            self.wf(),
        ensures
            r matches Some(k) ==> self.nested_history_for(id) == Some(k as int),
            r is None ==> self.nested_history_for(id) is None,
    {
        let mut k: usize = 0;
        while k < self.nested_histories.len()
            invariant
                k <= self.nested_histories@.len(),
                self.wf(),
                forall|l: int| 0 <= l < k ==> #[trigger] self.nested_histories@[l].id.0 != id.0,
            decreases self.nested_histories@.len() - k,
        {
            if self.nested_histories[k].id.0 == id.0 {
                assert(0 <= k < self.nested_histories@.len() && self.nested_histories@[k as int].id.0
                    == id.0);
                return Some(k);
            }
            k += 1;
        }
        None
    }

    /// The session history entries of the navigable `id`: the traversable's own list, or the
    /// nested history that shares the id.
    pub fn get_session_history_entries(&self, id: NavigableId) -> (r: Option<&Vec<SessionHistoryEntry>>)
        requires
            self.wf(),
        ensures
            r matches Some(v) ==> self.entries_for(id) == Some(v@),
            r is None ==> self.entries_for(id) is None,
    {
        if id.0 == self.navigable.id.0 {
            return Some(&self.session_history_entries);
        }
        match self.find_nested_history(id) {
            Some(k) => Some(&self.nested_histories[k].entries),
            None => None,
        }
    }

    /// The position, in the entries of the navigable `id`, of its target history entry for
    /// `step`.
    pub fn get_the_target_history_entry(&self, id: NavigableId, step: usize) -> (r: Option<usize>)
        requires
            self.wf(),
        ensures
            r matches Some(i) ==> self.entries_for(id) matches Some(v) && is_target_index(
                v,
                step as int,
                i as int,
            ),
            r is None ==> match self.entries_for(id) {
                Some(v) => !has_entry_at_or_before(v, step as int),
                None => true,
            },
    {
        match self.get_session_history_entries(id) {
            Some(v) => target_entry_index(v, step),
            None => None,
        }
    }

    /// Applies the history step `step`. The initiator check and the before-unload check run
    /// outside; their outcomes come in as `initiator_disallowed` and `canceled_by_beforeunload`,
    /// and each cancels the traversal, in that order. Otherwise the current step becomes the
    /// used step for `step`, and each navigable of the tree moves to its target entry for it.
    pub fn apply_history_step(
        &mut self,
        step: usize,
        initiator_disallowed: bool,
        canceled_by_beforeunload: bool,
    ) -> (r: HistoryApplicationResult)
        requires
            old(self).wf(),
        ensures
            final(self).wf(),
            final(self).session_history_entries == old(self).session_history_entries,
            final(self).nested_histories == old(self).nested_histories,
            final(self).descendants@.len() == old(self).descendants@.len(),
            initiator_disallowed ==> r == HistoryApplicationResult::InitiatorDisallowed
                && *final(self) == *old(self),
            !initiator_disallowed && canceled_by_beforeunload ==> r
                == HistoryApplicationResult::CancelledByBeforeUnload && *final(self) == *old(self),
            !initiator_disallowed && !canceled_by_beforeunload ==> {
                &&& r == HistoryApplicationResult::Applied
                &&& old(self).is_used_step(step as int, final(self).current_session_history_step as int)
                &&& traversed(
                    old(self).navigable,
                    old(self).session_history_entries@,
                    final(self).current_session_history_step as int,
                    final(self).navigable,
                )
                &&& forall|k: int|
                    0 <= k < old(self).descendants@.len() ==> match old(self).entries_for(
                        old(self).descendants@[k].id,
                    ) {
                        Some(v) => traversed(
                            old(self).descendants@[k],
                            v,
                            final(self).current_session_history_step as int,
                            #[trigger] final(self).descendants@[k],
                        ),
                        None => final(self).descendants@[k] == old(self).descendants@[k],
                    }
            },
    {
        if initiator_disallowed {
            return HistoryApplicationResult::InitiatorDisallowed;
        }
        if canceled_by_beforeunload {
            return HistoryApplicationResult::CancelledByBeforeUnload;
        }
        let target_step = self.get_the_used_step(step);
        self.current_session_history_step = target_step;
        let top_id = self.navigable.id;
        match target_entry_index(&self.session_history_entries, target_step) {
            Some(i) => {
                let target = self.session_history_entries[i].duplicate();
                self.navigable.move_to_entry(target);
            },
            None => {},
        }
        let ghost start = *self;
        let mut k: usize = 0;
        while k < self.descendants.len()
            invariant
                k <= self.descendants@.len(),
                self.wf(),
                self.descendants@.len() == old(self).descendants@.len(),
                self.session_history_entries == old(self).session_history_entries,
                self.nested_histories == old(self).nested_histories,
                self.navigable == start.navigable,
                self.navigable.id == old(self).navigable.id,
                self.current_session_history_step == target_step,
                forall|l: int| k <= l < self.descendants@.len() ==> #[trigger] self.descendants@[l]
                    == old(self).descendants@[l],
                forall|l: int|
                    0 <= l < k ==> match old(self).entries_for(old(self).descendants@[l].id) {
                        Some(v) => traversed(
                            old(self).descendants@[l],
                            v,
                            target_step as int,
                            #[trigger] self.descendants@[l],
                        ),
                        None => self.descendants@[l] == old(self).descendants@[l],
                    },
            decreases old(self).descendants@.len() - k,
        {
            let id = self.descendants[k].id;
            let target = match self.get_the_target_history_entry(id, target_step) {
                Some(i) => match self.get_session_history_entries(id) {
                    Some(v) => Some(v[i].duplicate()),
                    None => None,
                },
                None => None,
            };
            let ghost before = self.descendants@;
            match target {
                Some(t) => {
                    self.descendants[k].move_to_entry(t);
                },
                None => {},
            }
            assert(forall|l: int| 0 <= l < self.descendants@.len() && l != k ==> self.descendants@[l] == before[l]);
            assert(match old(self).entries_for(old(self).descendants@[k as int].id) {
                Some(v) => traversed(
                    old(self).descendants@[k as int],
                    v,
                    target_step as int,
                    self.descendants@[k as int],
                ),
                None => self.descendants@[k as int] == old(self).descendants@[k as int],
            });
            k += 1;
        }
        HistoryApplicationResult::Applied
    }

    /// Whether no two nested histories share an id.
    pub fn nested_history_ids_unique(&self) -> (r: bool)
        ensures
            r == self.wf(),
    {
        let n = self.nested_histories.len();
        let mut a: usize = 0;
        while a < n
            invariant
                n == self.nested_histories@.len(),
                a <= n,
                forall|x: int, y: int|
                    #![trigger self.nested_histories@[x].id.0, self.nested_histories@[y].id.0]
                    0 <= x < a && 0 <= y < n && self.nested_histories@[x].id.0
                        == self.nested_histories@[y].id.0 ==> x == y,
            decreases n - a,
        {
            let mut b: usize = 0;
            while b < n
                invariant
                    n == self.nested_histories@.len(),
                    a < n,
                    b <= n,
                    forall|x: int, y: int|
                        #![trigger self.nested_histories@[x].id.0, self.nested_histories@[y].id.0]
                        0 <= x < a && 0 <= y < n && self.nested_histories@[x].id.0
                            == self.nested_histories@[y].id.0 ==> x == y,
                    forall|y: int|
                        0 <= y < b && #[trigger] self.nested_histories@[y].id.0
                            == self.nested_histories@[a as int].id.0 ==> y == a,
                decreases n - b,
            {
                if b != a && self.nested_histories[a].id.0 == self.nested_histories[b].id.0 {
                    assert(self.nested_histories@[a as int].id.0 == self.nested_histories@[b as int].id.0);
                    return false;
                }
                b += 1;
            }
            a += 1;
        }
        true
    }

    /// Appends `entry` to the traversable's own entries, with the step after the last one (0
    /// for an empty list), and returns that step. Appends nothing where an entry already has
    /// its navigation API key, or the last step is the largest there is.
    pub fn append_session_history_entry(&mut self, entry: SessionHistoryEntry) -> (r: Option<usize>)
        requires
            entries_wf(old(self).session_history_entries@),
        ensures
            entries_wf(final(self).session_history_entries@),
            final(self).navigable == old(self).navigable,
            final(self).nested_histories == old(self).nested_histories,
            final(self).descendants == old(self).descendants,
            final(self).current_session_history_step == old(self).current_session_history_step,
            (exists|i: int|
                0 <= i < old(self).session_history_entries@.len()
                    && #[trigger] old(self).session_history_entries@[i].navigation_api_key@
                    == entry.navigation_api_key@) ==> r is None && final(self).session_history_entries
                == old(self).session_history_entries,
            r matches Some(step) ==> {
                &&& step as int == (if old(self).session_history_entries@.len() == 0 {
                    0
                } else {
                    step_of(old(self).session_history_entries@.last())->0 + 1
                })
                &&& final(self).session_history_entries@ == old(self).session_history_entries@.push(
                    SessionHistoryEntry { step: SessionHistoryEntryStep::Integer(step), ..entry },
                )
            },
            r is None ==> final(self).session_history_entries == old(self).session_history_entries,
            r is None ==> (exists|i: int|
                0 <= i < old(self).session_history_entries@.len()
                    && #[trigger] old(self).session_history_entries@[i].navigation_api_key@
                    == entry.navigation_api_key@) || (old(self).session_history_entries@.len() > 0
                && step_of(old(self).session_history_entries@.last()) == Some(usize::MAX as int)),
    {
        let n = self.session_history_entries.len();
        let mut i: usize = 0;
        while i < n
            invariant
                n == self.session_history_entries@.len(),
                i <= n,
                *self == *old(self),
                entries_wf(old(self).session_history_entries@),
                forall|j: int|
                    0 <= j < i ==> #[trigger] self.session_history_entries@[j].navigation_api_key@
                        != entry.navigation_api_key@,
            decreases n - i,
        {
            if self.session_history_entries[i].navigation_api_key == entry.navigation_api_key {
                assert(self.session_history_entries@[i as int].navigation_api_key@
                    == entry.navigation_api_key@);
                return None;
            }
            i += 1;
        }
        let step: usize = if n == 0 {
            0
        } else {
            match self.session_history_entries[n - 1].step {
                SessionHistoryEntryStep::Integer(s) => {
                    if s == usize::MAX {
                        return None;
                    }
                    s + 1
                },
                SessionHistoryEntryStep::Pending => {
                    assert(step_of(self.session_history_entries@[n - 1]) is Some);
                    return None;
                },
            }
        };
        let mut entry = entry;
        entry.set_step(step);
        let ghost before = self.session_history_entries@;
        self.session_history_entries.push(entry);
        proof {
            let after = self.session_history_entries@;
            assert forall|a: int| 0 <= a < after.len() implies (#[trigger] step_of(after[a])) is Some by {
                if a < before.len() {
                    assert(after[a] == before[a]);
                }
            }
            assert forall|a: int, b: int| 0 <= a < b < after.len() implies step_of(after[a])->0 <= step_of(after[b])->0 by {
                if b < before.len() {
                    assert(after[a] == before[a]);
                    assert(after[b] == before[b]);
                } else {
                    assert(after[a] == before[a]);
                    if a < before.len() - 1 {
                        assert(step_of(before[a])->0 <= step_of(before[before.len() - 1])->0);
                    }
                }
            }
            assert forall|a: int, b: int| 0 <= a < b < after.len() implies after[a].navigation_api_key@ != after[b].navigation_api_key@ by {
                assert(after[a] == before[a]);
                if b < before.len() {
                    assert(after[b] == before[b]);
                }
            }
        }
        Some(step)
    }
}

} // verus!
