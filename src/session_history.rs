//! Session history entries and the document states they carry.
use vstd::prelude::*;

verus! {

/// A source of fresh identifiers: each identifier handed out is the counter's current value,
/// after which the counter grows by one.
pub struct IdCounter {
    pub next: usize,
}

impl IdCounter {
    pub fn new() -> (r: IdCounter)
        ensures
            r.next == 0,
    {
        IdCounter { next: 0 }
    }
}

/// Rather than copy a document into a `DocumentState`, store a unique identifier that names it.
#[derive(Clone, Copy, Debug, PartialEq, Eq, Structural, Hash)]
pub struct DocumentId(pub usize);

impl DocumentId {
    /// Takes the next identifier from `counter`.
    pub fn next(counter: &mut IdCounter) -> (r: DocumentId)
        requires
            old(counter).next < usize::MAX,
        ensures
            r.0 == old(counter).next,
            final(counter).next == old(counter).next + 1,
    {
        let id = counter.next;
        counter.next = id + 1;
        DocumentId(id)
    }
}

/// Names a nested history: the session history of a child navigable, which shares the
/// identifier of that navigable.
#[derive(Clone, Copy, Debug, PartialEq, Eq, Structural, Hash)]
pub struct NestedHistoryId(pub usize);

impl NestedHistoryId {
    /// Takes the next identifier from `counter`.
    pub fn next(counter: &mut IdCounter) -> (r: NestedHistoryId)
        requires
            old(counter).next < usize::MAX,
        ensures
            r.0 == old(counter).next,
            final(counter).next == old(counter).next + 1,
    {
        let id = counter.next;
        counter.next = id + 1;
        NestedHistoryId(id)
    }
}

/// The step of a session history entry: pending until the entry is appended to a
/// traversable's list, then a non-negative integer.
#[derive(Clone, Copy, Debug, PartialEq, Eq, Structural)]
pub enum SessionHistoryEntryStep {
    Pending,
    Integer(usize),
}

impl SessionHistoryEntryStep {
    pub fn default() -> (r: SessionHistoryEntryStep)
        ensures
            r == SessionHistoryEntryStep::Pending,
    {
        SessionHistoryEntryStep::Pending
    }
}

/// Who restores the scroll position when the entry is traversed to.
#[derive(Clone, Copy, Debug, PartialEq, Eq, Structural)]
pub enum ScrollRestorationMode {
    /// The user agent restores the scroll position.
    Auto,
    /// The page restores the scroll position itself.
    Manual,
}

impl ScrollRestorationMode {
    pub fn default() -> (r: ScrollRestorationMode)
        ensures
            r == ScrollRestorationMode::Auto,
    {
        ScrollRestorationMode::Auto
    }
}

/// A copy of an optional string that is equal to it.
pub fn copy_optional_string(s: &Option<String>) -> (r: Option<String>)
    ensures
        r == *s,
{
    match s {
        Some(v) => Some(v.clone()),
        None => None,
    }
}

/// How to present and, if needed, recreate a document.
pub struct DocumentState {
    pub document_id: DocumentId,
    pub reload_pending: bool,
    pub navigable_target_name: Option<String>,
    pub initiator_origin: Option<String>,
    pub origin: String,
    pub about_base_url: Option<String>,
}

impl DocumentState {
    pub fn new(
        document_id: DocumentId,
        navigable_target_name: Option<String>,
        initiator_origin: Option<String>,
        origin: String,
        about_base_url: Option<String>,
    ) -> (r: DocumentState)
        ensures
            r.document_id == document_id,
            !r.reload_pending,
            r.navigable_target_name == navigable_target_name,
            r.initiator_origin == initiator_origin,
            r.origin == origin,
            r.about_base_url == about_base_url,
    {
        DocumentState {
            document_id,
            reload_pending: false,
            navigable_target_name,
            initiator_origin,
            origin,
            about_base_url,
        }
    }

    /// A copy equal to `self`.
    pub fn duplicate(&self) -> (r: DocumentState)
        ensures
            r == *self,
    {
        DocumentState {
            document_id: self.document_id,
            reload_pending: self.reload_pending,
            navigable_target_name: copy_optional_string(&self.navigable_target_name),
            initiator_origin: copy_optional_string(&self.initiator_origin),
            origin: self.origin.clone(),
            about_base_url: copy_optional_string(&self.about_base_url),
        }
    }
}


/// Relies on `uuid::Uuid::new_v4` and its `Display`: a random version-4 UUID in the
/// hyphenated form, 36 characters long.
#[verifier::external_body]
fn new_navigation_api_key() -> (r: String)
    ensures
        r@.len() == 36,
{
    uuid::Uuid::new_v4().to_string()
}

/// One point in a navigable's session history.
pub struct SessionHistoryEntry {
    pub step: SessionHistoryEntryStep,
    pub url: String,
    pub navigation_api_state: Option<String>,
    pub document_state: DocumentState,
    /// Identifies the entry for the Navigation API, whatever its position in the list.
    pub navigation_api_key: String,
    pub scroll_restoration_mode: ScrollRestorationMode,
}

impl SessionHistoryEntry {
    /// A new entry with a pending step and a fresh random navigation API key.
    pub fn new(url: String, document_state: DocumentState) -> (r: SessionHistoryEntry)
        ensures
            r.step == SessionHistoryEntryStep::Pending,
            r.url == url,
            r.document_state == document_state,
            r.navigation_api_state.is_none(),
            r.navigation_api_key@.len() == 36,
            r.scroll_restoration_mode == ScrollRestorationMode::Auto,
    {
        let key = new_navigation_api_key();
        SessionHistoryEntry::with_key(url, document_state, key)
    }

    /// A new entry with a pending step and the given navigation API key.
    pub fn with_key(url: String, document_state: DocumentState, navigation_api_key: String) -> (r:
        SessionHistoryEntry)
        ensures
            r.step == SessionHistoryEntryStep::Pending,
            r.url == url,
            r.document_state == document_state,
            r.navigation_api_state.is_none(),
            r.navigation_api_key == navigation_api_key,
            r.scroll_restoration_mode == ScrollRestorationMode::Auto,
    {
        SessionHistoryEntry {
            step: SessionHistoryEntryStep::default(),
            url,
            navigation_api_state: None,
            document_state,
            navigation_api_key,
            scroll_restoration_mode: ScrollRestorationMode::default(),
        }
    }

    pub fn set_step(&mut self, step: usize)
        ensures
            final(self).step == SessionHistoryEntryStep::Integer(step),
            final(self).url == old(self).url,
            final(self).navigation_api_state == old(self).navigation_api_state,
            final(self).document_state == old(self).document_state,
            final(self).navigation_api_key == old(self).navigation_api_key,
            final(self).scroll_restoration_mode == old(self).scroll_restoration_mode,
    {
        self.step = SessionHistoryEntryStep::Integer(step);
    }

    pub fn navigation_api_key(&self) -> (r: String)
        ensures
            r == self.navigation_api_key,
    {
        self.navigation_api_key.clone()
    }

    pub fn navigation_api_state(&self) -> (r: Option<String>)
        ensures
            r == self.navigation_api_state,
    {
        copy_optional_string(&self.navigation_api_state)
    }

    pub fn set_navigation_api_state(&mut self, state: String)
        ensures
            final(self).navigation_api_state == Some(state),
            final(self).step == old(self).step,
            final(self).url == old(self).url,
            final(self).document_state == old(self).document_state,
            final(self).navigation_api_key == old(self).navigation_api_key,
            final(self).scroll_restoration_mode == old(self).scroll_restoration_mode,
    {
        self.navigation_api_state = Some(state);
    }

    /// A copy equal to `self`.
    pub fn duplicate(&self) -> (r: SessionHistoryEntry)
        ensures
            r == *self,
    {
        SessionHistoryEntry {
            step: self.step,
            url: self.url.clone(),
            navigation_api_state: copy_optional_string(&self.navigation_api_state),
            document_state: self.document_state.duplicate(),
            navigation_api_key: self.navigation_api_key.clone(),
            scroll_restoration_mode: self.scroll_restoration_mode,
        }
    }

    /// Two entries are the same entry when their navigation API keys are equal.
    pub fn same_entry(&self, other: &SessionHistoryEntry) -> (r: bool)
        ensures
            r == (self.navigation_api_key@ == other.navigation_api_key@),
    {
        self.navigation_api_key == other.navigation_api_key
    }
}

impl PartialEq for SessionHistoryEntry {
    /// Entries are equal when their navigation API keys are.
    fn eq(&self, other: &SessionHistoryEntry) -> (r: bool) {
        self.navigation_api_key == other.navigation_api_key
    }
}

impl vstd::std_specs::cmp::PartialEqSpecImpl for SessionHistoryEntry {
    open spec fn obeys_eq_spec() -> bool {
        true
    }

    open spec fn eq_spec(&self, other: &SessionHistoryEntry) -> bool {
        self.navigation_api_key@ == other.navigation_api_key@
    }
}

/// The session history of a child navigable: its id equals that navigable's id.
pub struct NestedHistory {
    pub id: NestedHistoryId,
    pub entries: Vec<SessionHistoryEntry>,
}

impl NestedHistory {
    pub fn new(id: NestedHistoryId) -> (r: NestedHistory)
        ensures
            r.id == id,
            r.entries@.len() == 0,
    {
        NestedHistory { id, entries: Vec::new() }
    }

    pub fn id(&self) -> (r: usize)
        ensures
            r == self.id.0,
    {
        self.id.0
    }

    pub fn entries(&self) -> (r: &Vec<SessionHistoryEntry>)
        ensures
            r == &self.entries,
    {
        &self.entries
    }
}

} // verus!
