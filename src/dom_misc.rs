//! Small DOM types: clipboard items, the cookie store, abort algorithms, the interception
//! state of a navigate event and service worker jobs.
use vstd::prelude::*;
use crate::navigation::{Promise, PromiseState};

verus! {

/// One representation of a clipboard item: a MIME type and its data.
pub struct ClipboardItemRepresentation {
    pub mime_type: String,
    pub is_custom: bool,
    pub data: String,
}

/// How a clipboard item is to be presented.
#[derive(Clone, Copy, Debug, PartialEq, Eq, Structural)]
pub enum PresentationStyle {
    Unspecified,
    Inline,
    Attachment,
}

/// An item for the clipboard: its data by MIME type.
pub struct ClipboardItem {
    pub presentation_style: PresentationStyle,
    pub items: Vec<(String, String)>,
}

#[allow(non_snake_case)]
impl ClipboardItem {
    pub fn new(items: Vec<(String, String)>) -> (r: ClipboardItem)
        ensures
            r.presentation_style == PresentationStyle::Unspecified,
            r.items == items,
    {
        ClipboardItem { presentation_style: PresentationStyle::Unspecified, items }
    }

    /// Whether the clipboard supports `type_`: no type is supported yet.
    pub fn Supports(type_: &str) -> (r: bool)
        ensures
            !r,
    {
        false
    }

    pub fn presentation_style(&self) -> (r: PresentationStyle)
        ensures
            r == self.presentation_style,
    {
        self.presentation_style
    }
}

/// The cookie store of a window.
pub struct CookieStore {}

impl CookieStore {
    pub fn new() -> (r: CookieStore) {
        CookieStore {  }
    }
}

/// What to run when a signal aborts.
#[derive(Clone, Copy, Debug, PartialEq, Eq, Structural)]
pub enum AbortAlgorithm {
    StreamAbort(Promise),
    /// Resolves the promise with undefined.
    ResolveUndefined(Promise),
    AbortFetch,
}

impl AbortAlgorithm {
    /// Runs the algorithm: resolving with undefined settles its promise as fulfilled; the
    /// others have nothing to do here. Returns the promise it settled, if any.
    pub fn exec(self) -> (r: Option<Promise>)
        ensures
            r == (match self {
                AbortAlgorithm::ResolveUndefined(p) => Some(Promise { state: PromiseState::Fulfilled, ..p }),
                _ => None,
            }),
    {
        match self {
            AbortAlgorithm::ResolveUndefined(p) => Some(Promise { id: p.id, state: PromiseState::Fulfilled, handled: p.handled }),
            _ => None,
        }
    }
}

/// The interception state of a navigate event.
#[derive(Clone, Copy, Debug, PartialEq, Eq, Structural)]
pub enum InterceptionState {
    NotIntercepted,
    Intercepted,
    Committed,
    Scrolled,
    Finished,
}

/// The type of a service worker job.
#[derive(Clone, Copy, Debug, PartialEq, Eq, Structural)]
pub enum JobType {
    Register,
    Unregister,
    Update,
}

/// The error a job promise is rejected with.
#[derive(Clone, Copy, Debug, PartialEq, Eq, Structural)]
pub enum JobError {
    TypeError,
    SecurityError,
}

/// Messages from the service worker manager.
#[derive(Clone, Copy, Debug, PartialEq, Eq, Structural)]
pub enum SWManagerMsg {
    PostMessageToClient,
}

} // verus!
