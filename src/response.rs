//! Response kinds and the status checks of the Fetch standard.
use vstd::prelude::*;
use crate::navigation::{resolved_url, resolve_url, DomError};

verus! {

/// Why a fetch failed.
pub struct NetworkError {
    pub message: String,
}

/// The type of a response.
pub enum ResponseType {
    Basic,
    Cors,
    Default,
    Error(NetworkError),
    Opaque,
    OpaqueRedirect,
}

/// Why a response ended early.
#[derive(Clone, Copy, Debug, PartialEq, Eq, Structural)]
pub enum TerminationReason {
    EndUserAbort,
    Fatal,
    Timeout,
}

/// A response body, which can still grow after the fetch.
pub enum ResponseBody {
    Empty,
    Receiving(Vec<u8>),
    Done(Vec<u8>),
}

impl ResponseBody {
    pub fn is_done(&self) -> (r: bool)
        ensures
            r == (self is Done),
    {
        match self {
            ResponseBody::Done(..) => true,
            ResponseBody::Empty | ResponseBody::Receiving(..) => false,
        }
    }
}

/// The cache state of a response.
#[derive(Clone, Copy, Debug, PartialEq, Eq, Structural)]
pub enum CacheState {
    /// Not from a cache.
    Uncached,
    Local,
    Validated,
    Partial,
}

/// The HTTPS state of a response.
#[derive(Clone, Copy, Debug, PartialEq, Eq, Structural)]
pub enum HttpsState {
    /// Not fetched over HTTPS.
    NoHttps,
    Deprecated,
    Modern,
}

/// A redirect status: 301, 302, 303, 307 or 308.
pub open spec fn redirect_status(status: u16) -> bool {
    status == 301 || status == 302 || status == 303 || status == 307 || status == 308
}

pub fn is_redirect_status(status: u16) -> (r: bool)
    ensures
        r == redirect_status(status),
{
    status == 301 || status == 302 || status == 303 || status == 307 || status == 308
}

/// A byte allowed in a reason phrase: tab, space, a visible ASCII character (0x21 to 0x7E) or
/// obs-text (0x80 to 0xFF).
pub open spec fn status_text_byte(b: u8) -> bool {
    b == 0x09 || b == 0x20 || (0x21 <= b && b <= 0x7e) || 0x80 <= b
}

/// Whether every byte of `status_text` may stand in a reason phrase.
pub fn is_valid_status_text(status_text: &[u8]) -> (r: bool)
    ensures
        r == (forall|i: int| 0 <= i < status_text@.len() ==> #[trigger] status_text_byte(status_text@[i])),
{
    let mut i: usize = 0;
    while i < status_text.len()
        invariant
            i <= status_text@.len(),
            forall|j: int| 0 <= j < i ==> #[trigger] status_text_byte(status_text@[j]),
        decreases status_text@.len() - i,
    {
        let b = status_text[i];
        if !(b == 0x09 || b == 0x20 || (0x21 <= b && b <= 0x7e) || 0x80 <= b) {
            assert(!status_text_byte(status_text@[i as int]));
            return false;
        }
        i += 1;
    }
    true
}

/// A null body status: 101, 204, 205 or 304.
pub open spec fn null_body_status(status: u16) -> bool {
    status == 101 || status == 204 || status == 205 || status == 304
}

pub fn is_null_body_status(status: u16) -> (r: bool)
    ensures
        r == null_body_status(status),
{
    status == 101 || status == 204 || status == 205 || status == 304
}


/// The type of a response as script sees it.
#[derive(Clone, Copy, Debug, PartialEq, Eq, Structural)]
pub enum DomResponseType {
    Basic,
    Cors,
    Default,
    Error,
    Opaque,
    Opaqueredirect,
}

/// The extracted body handed to a response: whether there is one, and its content type.
pub struct ExtractedBody {
    pub content_type: Option<String>,
}

/// A `Response` object: the parts of its response that script can read. Header names are
/// kept in ASCII lower case.
pub struct DomResponse {
    pub response_type: DomResponseType,
    pub status: u16,
    pub status_text: Vec<u8>,
    pub headers: Vec<(String, String)>,
    pub has_body: bool,
    pub url: Option<String>,
    pub url_list: Vec<String>,
    pub redirected: bool,
}

/// Some header of `headers` is named `name`.
pub open spec fn has_header(headers: Seq<(String, String)>, name: Seq<char>) -> bool {
    exists|i: int| 0 <= i < headers.len() && (#[trigger] headers[i]).0@ == name
}

/// Initializing with `body` appends its content type, as a `content-type` header, to
/// `headers`: the body has a type and no such header is there yet.
pub open spec fn adds_content_type(headers: Seq<(String, String)>, body: Option<ExtractedBody>) -> bool {
    &&& body is Some
    &&& body->0.content_type is Some
    &&& !has_header(headers, "content-type"@)
}

impl DomResponse {
    /// A default response: status 200, no status text, no headers and no body.
    pub fn new() -> (r: DomResponse)
        ensures
            r.response_type == DomResponseType::Default,
            r.status == 200,
            r.status_text@.len() == 0,
            r.headers@.len() == 0,
            !r.has_body,
            r.url is None,
            r.url_list@.len() == 0,
            !r.redirected,
    {
        DomResponse {
            response_type: DomResponseType::Default,
            status: 200,
            status_text: Vec::new(),
            headers: Vec::new(),
            has_body: false,
            url: None,
            url_list: Vec::new(),
            redirected: false,
        }
    }

    /// A network error: type "error", status 0.
    pub fn error() -> (r: DomResponse)
        ensures
            r.response_type == DomResponseType::Error,
            r.status == 0,
            r.status_text@.len() == 0,
            r.headers@.len() == 0,
            !r.has_body,
    {
        let mut r = DomResponse::new();
        r.response_type = DomResponseType::Error;
        r.status = 0;
        r
    }

    /// Whether the status is in the range 200 to 299.
    pub fn ok(&self) -> (r: bool)
        ensures
            r == (200 <= self.status && self.status <= 299),
    {
        200 <= self.status && self.status <= 299
    }

    fn find_header(&self, name: &String) -> (r: bool)
        ensures
            r == has_header(self.headers@, name@),
    {
        let mut i: usize = 0;
        while i < self.headers.len()
            invariant
                i <= self.headers@.len(),
                forall|j: int| 0 <= j < i ==> (#[trigger] self.headers@[j]).0@ != name@,
            decreases self.headers@.len() - i,
        {
            if self.headers[i].0 == *name {
                assert(self.headers@[i as int].0@ == name@);
                return true;
            }
            i += 1;
        }
        false
    }

    /// Initializes the response from `status`, `status_text` and `body`. Fails with a range
    /// error where the status is outside 200 to 599, with a type error where the status text is
    /// not a reason phrase, or where a body comes with a null body status.
    pub fn initialize_response(&mut self, status: u16, status_text: Vec<u8>, body: Option<ExtractedBody>) -> (r: Result<(), DomError>)
        ensures
            status < 200 || status > 599 ==> r == Err::<(), DomError>(DomError::Range) && *final(self) == *old(self),
            200 <= status <= 599 && !(forall|i: int| 0 <= i < status_text@.len() ==> #[trigger] status_text_byte(status_text@[i]))
                ==> r == Err::<(), DomError>(DomError::Type) && *final(self) == *old(self),
            200 <= status <= 599 && (forall|i: int| 0 <= i < status_text@.len() ==> #[trigger] status_text_byte(status_text@[i])) ==> {
                &&& final(self).status == status
                &&& final(self).status_text == status_text
                &&& (body is Some && null_body_status(status)) ==> r == Err::<(), DomError>(DomError::Type)
                &&& !(body is Some && null_body_status(status)) ==> r is Ok && final(self).has_body == (old(self).has_body || body is Some)
                &&& (r is Ok && adds_content_type(old(self).headers@, body)) ==> {
                    &&& final(self).headers@.len() == old(self).headers@.len() + 1
                    &&& final(self).headers@.drop_last() == old(self).headers@
                    &&& final(self).headers@.last().0@ == "content-type"@
                    &&& Some(final(self).headers@.last().1) == body->0.content_type
                }
                &&& !(r is Ok && adds_content_type(old(self).headers@, body)) ==> final(self).headers == old(self).headers
            },
    {
        if status < 200 || status > 599 {
            return Err(DomError::Range);
        }
        if !is_valid_status_text(status_text.as_slice()) {
            return Err(DomError::Type);
        }
        self.status = status;
        self.status_text = status_text;
        match body {
            None => Ok(()),
            Some(b) => {
                if is_null_body_status(status) {
                    return Err(DomError::Type);
                }
                self.has_body = true;
                match b.content_type {
                    Some(ct) => {
                        let name = "content-type".to_owned();
                        if !self.find_header(&name) {
                            self.headers.push((name, ct));
                        }
                    },
                    None => {},
                }
                Ok(())
            },
        }
    }

    /// A redirect to `url`, resolved against `base_url`, with the redirect status `status`.
    /// Fails with a type error where the URL does not resolve and with a range error where the
    /// status is not a redirect status.
    pub fn redirect(base_url: &str, url: &str, status: u16) -> (r: Result<DomResponse, DomError>)
        ensures
            resolved_url(base_url@, url@) is None ==> r == Err::<DomResponse, DomError>(DomError::Type),
            resolved_url(base_url@, url@) is Some && !redirect_status(status) ==> r == Err::<DomResponse, DomError>(DomError::Range),
            resolved_url(base_url@, url@) is Some && redirect_status(status) ==> match r {
                Ok(resp) => {
                    &&& resp.status == status
                    &&& resp.headers@.len() == 1
                    &&& resp.headers@[0].0@ == "location"@
                    &&& resp.headers@[0].1@ == (resolved_url(base_url@, url@)->0).0
                    &&& !resp.has_body
                },
                Err(_) => false,
            },
    {
        let parsed = match resolve_url(base_url, url) {
            Some((u, _)) => u,
            None => return Err(DomError::Type),
        };
        if !is_redirect_status(status) {
            return Err(DomError::Range);
        }
        let mut response = DomResponse::new();
        response.status = status;
        response.headers.push(("location".to_owned(), parsed));
        Ok(response)
    }

    /// Sets the type, and clears what that type hides: an error, opaque or opaque-redirect
    /// response has status 0 and no headers; an opaque one also loses its URL list, and
    /// both opaque kinds their body.
    pub fn set_type(&mut self, response_type: DomResponseType)
        ensures
            final(self).response_type == response_type,
            final(self).url == old(self).url,
            final(self).redirected == old(self).redirected,
            final(self).status_text == old(self).status_text,
            match response_type {
                DomResponseType::Error => final(self).status == 0 && final(self).headers@.len() == 0
                    && final(self).has_body == old(self).has_body && final(self).url_list == old(self).url_list,
                DomResponseType::Opaque => final(self).status == 0 && final(self).headers@.len() == 0
                    && !final(self).has_body && final(self).url_list@.len() == 0,
                DomResponseType::Opaqueredirect => final(self).status == 0 && final(self).headers@.len() == 0
                    && !final(self).has_body && final(self).url_list == old(self).url_list,
                _ => final(self).status == old(self).status && final(self).headers == old(self).headers
                    && final(self).has_body == old(self).has_body && final(self).url_list == old(self).url_list,
            },
    {
        self.response_type = response_type;
        match response_type {
            DomResponseType::Error => {
                self.status = 0;
                self.headers = Vec::new();
            },
            DomResponseType::Opaque => {
                self.url_list = Vec::new();
                self.status = 0;
                self.headers = Vec::new();
                self.has_body = false;
            },
            DomResponseType::Opaqueredirect => {
                self.status = 0;
                self.headers = Vec::new();
                self.has_body = false;
            },
            DomResponseType::Default | DomResponseType::Basic | DomResponseType::Cors => {},
        }
    }

    /// A copy of the response. Fails with a type error where its body is locked or disturbed;
    /// those facts of the body stream come from outside.
    pub fn clone_response(&self, body_locked: bool, body_disturbed: bool) -> (r: Result<DomResponse, DomError>)
        ensures
            body_locked || body_disturbed ==> r == Err::<DomResponse, DomError>(DomError::Type),
            !(body_locked || body_disturbed) ==> match r {
                Ok(c) => {
                    &&& c.response_type == self.response_type
                    &&& c.status == self.status
                    &&& c.status_text@ == self.status_text@
                    &&& c.headers@ == self.headers@
                    &&& c.has_body == self.has_body
                    &&& c.url == self.url
                    &&& c.url_list@ == self.url_list@
                    &&& !c.redirected
                },
                Err(_) => false,
            },
    {
        if body_locked || body_disturbed {
            return Err(DomError::Type);
        }
        let mut headers: Vec<(String, String)> = Vec::new();
        let mut i: usize = 0;
        while i < self.headers.len()
            invariant
                i <= self.headers@.len(),
                headers@ == self.headers@.subrange(0, i as int),
            decreases self.headers@.len() - i,
        {
            let h = (self.headers[i].0.clone(), self.headers[i].1.clone());
            headers.push(h);
            assert(headers@ =~= self.headers@.subrange(0, i + 1));
            i += 1;
        }
        assert(headers@ =~= self.headers@);
        let mut url_list: Vec<String> = Vec::new();
        let mut j: usize = 0;
        while j < self.url_list.len()
            invariant
                j <= self.url_list@.len(),
                url_list@ == self.url_list@.subrange(0, j as int),
            decreases self.url_list@.len() - j,
        {
            url_list.push(self.url_list[j].clone());
            assert(url_list@ =~= self.url_list@.subrange(0, j + 1));
            j += 1;
        }
        assert(url_list@ =~= self.url_list@);
        let mut status_text: Vec<u8> = Vec::new();
        let mut k: usize = 0;
        while k < self.status_text.len()
            invariant
                k <= self.status_text@.len(),
                status_text@ == self.status_text@.subrange(0, k as int),
            decreases self.status_text@.len() - k,
        {
            status_text.push(self.status_text[k]);
            assert(status_text@ =~= self.status_text@.subrange(0, k + 1));
            k += 1;
        }
        assert(status_text@ =~= self.status_text@);
        let url = match &self.url {
            Some(u) => Some(u.clone()),
            None => None,
        };
        Ok(DomResponse {
            response_type: self.response_type,
            status: self.status,
            status_text,
            headers,
            has_body: self.has_body,
            url,
            url_list,
            redirected: false,
        })
    }
}

} // verus!
