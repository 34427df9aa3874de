//! Content Security Policy violation reports and the reasons a page was not restored from
//! the back/forward cache.
use vstd::prelude::*;

verus! {

/// Whether a violated policy was enforced or only reported.
#[derive(Clone, Copy, Debug, PartialEq, Eq, Structural)]
pub enum SecurityPolicyViolationEventDisposition {
    Enforce,
    Report,
}

/// The body of a CSP violation report. Its members are not filled in yet: each getter
/// returns the empty value of its member.
pub struct CSPViolationReportBody {}

#[allow(non_snake_case)]
impl CSPViolationReportBody {
    pub fn new() -> (r: CSPViolationReportBody) {
        CSPViolationReportBody {  }
    }

    pub fn DocumentURL(&self) -> (r: String)
        ensures
            r@.len() == 0,
    {
        String::new()
    }

    pub fn GetReferrer(&self) -> (r: Option<String>)
        ensures
            r is None,
    {
        None
    }

    pub fn GetBlockedURL(&self) -> (r: Option<String>)
        ensures
            r is None,
    {
        None
    }

    pub fn EffectiveDirective(&self) -> (r: String)
        ensures
            r@.len() == 0,
    {
        String::new()
    }

    pub fn OriginalPolicy(&self) -> (r: String)
        ensures
            r@.len() == 0,
    {
        String::new()
    }

    pub fn GetSourceFile(&self) -> (r: Option<String>)
        ensures
            r is None,
    {
        None
    }

    pub fn GetSample(&self) -> (r: Option<String>)
        ensures
            r is None,
    {
        None
    }

    pub fn Disposition(&self) -> (r: SecurityPolicyViolationEventDisposition)
        ensures
            r == SecurityPolicyViolationEventDisposition::Report,
    {
        SecurityPolicyViolationEventDisposition::Report
    }

    pub fn StatusCode(&self) -> (r: u16)
        ensures
            r == 0,
    {
        0
    }

    pub fn GetLineNumber(&self) -> (r: Option<u32>)
        ensures
            r is None,
    {
        None
    }

    pub fn GetColumnNumber(&self) -> (r: Option<u32>)
        ensures
            r is None,
    {
        None
    }
}

/// The event fired at a document when one of its policies is violated.
pub struct SecurityPolicyViolationEvent {
    pub document_uri: String,
    pub blocked_uri: String,
    pub referrer: String,
    pub disposition: SecurityPolicyViolationEventDisposition,
    pub effective_directive: String,
    pub original_policy: String,
    pub line_number: u32,
    pub column_number: u32,
    pub status_code: u16,
    pub sample: String,
    pub source_file: String,
}

impl SecurityPolicyViolationEvent {
    pub fn new_inherited(
        document_uri: String,
        blocked_uri: String,
        referrer: String,
        disposition: SecurityPolicyViolationEventDisposition,
        effective_directive: String,
        original_policy: String,
        line_number: u32,
        column_number: u32,
        status_code: u16,
        sample: String,
        source_file: String,
    ) -> (r: SecurityPolicyViolationEvent)
        ensures
            r.document_uri == document_uri,
            r.blocked_uri == blocked_uri,
            r.referrer == referrer,
            r.disposition == disposition,
            r.effective_directive == effective_directive,
            r.original_policy == original_policy,
            r.line_number == line_number,
            r.column_number == column_number,
            r.status_code == status_code,
            r.sample == sample,
            r.source_file == source_file,
    {
        SecurityPolicyViolationEvent {
            document_uri,
            blocked_uri,
            referrer,
            disposition,
            effective_directive,
            original_policy,
            line_number,
            column_number,
            status_code,
            sample,
            source_file,
        }
    }
}

/// The kind of inline check that found a violation.
#[derive(Clone, Copy, Debug, PartialEq, Eq, Structural)]
pub enum InlineCheckType {
    Script,
    ScriptAttribute,
    Style,
    StyleAttribute,
    Navigation,
}

/// What the blocked request was for, as far as the effective directive depends on it.
#[derive(Clone, Copy, Debug, PartialEq, Eq, Structural)]
pub enum ViolationDestination {
    Script,
    Style,
    Audio,
    Other,
}

/// The effective directive of a violation.
pub open spec fn effective_directive_of(check_type: Option<InlineCheckType>, destination: ViolationDestination) -> Seq<char> {
    match check_type {
        Some(InlineCheckType::Script) | Some(InlineCheckType::ScriptAttribute) => "script-src-attr"@,
        Some(InlineCheckType::Style) | Some(InlineCheckType::StyleAttribute) => "style-src-attr"@,
        Some(InlineCheckType::Navigation) => "todo"@,
        None => match destination {
            ViolationDestination::Script => "script-src-elem"@,
            ViolationDestination::Style => "style-src-elem"@,
            ViolationDestination::Audio => "media-src"@,
            ViolationDestination::Other => "todo"@,
        },
    }
}

pub fn effective_directive(check_type: Option<InlineCheckType>, destination: ViolationDestination) -> (r: String)
    ensures
        r@ == effective_directive_of(check_type, destination),
{
    match check_type {
        Some(InlineCheckType::Script) | Some(InlineCheckType::ScriptAttribute) => "script-src-attr".to_owned(),
        Some(InlineCheckType::Style) | Some(InlineCheckType::StyleAttribute) => "style-src-attr".to_owned(),
        Some(InlineCheckType::Navigation) => "todo".to_owned(),
        None => match destination {
            ViolationDestination::Script => "script-src-elem".to_owned(),
            ViolationDestination::Style => "style-src-elem".to_owned(),
            ViolationDestination::Audio => "media-src".to_owned(),
            ViolationDestination::Other => "todo".to_owned(),
        },
    }
}

impl SecurityPolicyViolationEvent {
    /// The event for a violation found on the document at `document_uri` (already stripped for
    /// reports), or on inline content where there is none: the blocked URI is the document
    /// URI, the effective directive follows the check and the destination, the other members
    /// are empty.
    pub fn new(
        document_uri: Option<String>,
        destination: ViolationDestination,
        check_type: Option<InlineCheckType>,
    ) -> (r: SecurityPolicyViolationEvent)
        ensures
            match document_uri {
                Some(u) => r.document_uri == u,
                None => r.document_uri@ == "inline"@,
            },
            r.blocked_uri == r.document_uri,
            r.effective_directive@ == effective_directive_of(check_type, destination),
            r.referrer@.len() == 0,
            r.disposition == SecurityPolicyViolationEventDisposition::Enforce,
            r.status_code == 0,
            r.line_number == 0,
            r.column_number == 0,
    {
        let document_uri = match document_uri {
            Some(u) => u,
            None => "inline".to_owned(),
        };
        let blocked_uri = document_uri.clone();
        SecurityPolicyViolationEvent::new_inherited(
            document_uri,
            blocked_uri,
            String::new(),
            SecurityPolicyViolationEventDisposition::Enforce,
            effective_directive(check_type, destination),
            String::new(),
            0,
            0,
            0,
            String::new(),
            String::new(),
        )
    }

    pub fn effective_directive(&self) -> (r: String)
        ensures
            r == self.effective_directive,
    {
        self.effective_directive.clone()
    }

    /// The violated directive is the effective one.
    pub fn violated_directive(&self) -> (r: String)
        ensures
            r == self.effective_directive,
    {
        self.effective_directive.clone()
    }
}

/// One reason a document was not restored from the back/forward cache.
pub struct NotRestoredReasonDetails {
    pub reason: String,
}

impl NotRestoredReasonDetails {
    fn new_inherited(reason: String) -> (r: NotRestoredReasonDetails)
        ensures
            r.reason == reason,
    {
        NotRestoredReasonDetails { reason }
    }

    pub fn new(reason: String) -> (r: NotRestoredReasonDetails)
        ensures
            r.reason == reason,
    {
        NotRestoredReasonDetails::new_inherited(reason)
    }

    pub fn reason(&self) -> (r: String)
        ensures
            r == self.reason,
    {
        self.reason.clone()
    }
}

/// Why a document, and its child documents, were not restored.
pub struct NotRestoredReasons {
    pub reasons: Option<Vec<NotRestoredReasonDetails>>,
    pub children: Option<Vec<NotRestoredReasons>>,
    pub src: Option<String>,
    pub id: Option<String>,
    pub name: Option<String>,
    pub url: Option<String>,
}

} // verus!
