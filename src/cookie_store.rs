//! The checks of the cookie store's "set a cookie" algorithm.
use vstd::prelude::*;
use vstd::std_specs::iter::IteratorSpec;

verus! {

/// The largest number of bytes that a cookie's name and value may take together.
pub const MAX_NAME_VALUE_PAIR_SIZE: usize = 4096;

/// The largest number of bytes that a cookie attribute's value may take.
pub const MAX_ATTRIBUTE_VALUE_SIZE: usize = 1024;

/// A character that may not stand in a cookie's name or value: a control character other
/// than tab, or ';'.
pub open spec fn disallowed_cookie_char(c: char) -> bool {
    (c != '\t' && (c as u32) < 0x20) || (0x7f <= (c as u32) && (c as u32) <= 0x9f) || c == ';'
}

/// Some character of `s` may not stand in a cookie's name or value.
pub open spec fn has_disallowed_char(s: Seq<char>) -> bool {
    exists|i: int| 0 <= i < s.len() && #[trigger] disallowed_cookie_char(s[i])
}

/// The number of bytes of `s` in UTF-8, as `str::len` reports it.
pub open spec fn utf8_len(s: Seq<char>) -> int {
    (vstd::utf8::encode_utf8(s).len() as usize) as int
}

/// Whether `s` holds a character that may not stand in a cookie's name or value.
pub fn contains_disallowed_chars(s: &str) -> (r: bool)
    ensures
        r == has_disallowed_char(s@),
{
    let mut it = s.chars();
    let ghost mut i: int = 0;
    proof {
        vstd::string::axiom_spec_iter(s);
    }
    loop
        invariant
            0 <= i <= s@.len(),
            it.remaining() == s@.subrange(i, s@.len() as int),
            forall|j: int| 0 <= j < i ==> !#[trigger] disallowed_cookie_char(s@[j]),
        decreases s@.len() - i,
    {
        match it.next() {
            Some(c) => {
                assert(c == s@[i]);
                let code = c as u32;
                if (c != '\t' && code < 0x20) || (0x7f <= code && code <= 0x9f) || c == ';' {
                    assert(disallowed_cookie_char(s@[i]));
                    return true;
                }
                proof {
                    i = i + 1;
                }
            },
            None => {
                return false;
            },
        }
    }
}

/// The characters of `s`.
pub fn chars_of(s: &str) -> (r: Vec<char>)
    ensures
        r@ == s@,
{
    let mut out: Vec<char> = Vec::new();
    let mut it = s.chars();
    let ghost mut i: int = 0;
    proof {
        vstd::string::axiom_spec_iter(s);
    }
    loop
        invariant
            0 <= i <= s@.len(),
            it.remaining() == s@.subrange(i, s@.len() as int),
            out@ == s@.subrange(0, i),
        decreases s@.len() - i,
    {
        match it.next() {
            Some(c) => {
                out.push(c);
                proof {
                    assert(out@ =~= s@.subrange(0, i + 1));
                    i = i + 1;
                }
            },
            None => {
                assert(out@ =~= s@);
                return out;
            },
        }
    }
}

/// Relies on `String::push`: appends `c`.
#[verifier::external_body]
fn push_char(s: &mut String, c: char)
    ensures
        final(s)@ == old(s)@.push(c),
{
    s.push(c);
}

/// The host of the URL `url`, serialized; none where it does not parse or has no host.
pub uninterp spec fn host_of(url: Seq<char>) -> Option<Seq<char>>;

/// Relies on `url::Url::parse` and `Url::host_str`: the URL's host, if it parses and has one.
#[verifier::external_body]
fn url_host(url: &str) -> (r: Option<String>)
    ensures
        match r {
            Some(h) => host_of(url@) == Some(h@),
            None => host_of(url@) is None,
        },
{
    url::Url::parse(url).ok().and_then(|u| u.host_str().map(|h| h.to_owned()))
}

/// The same-site attribute of a cookie.
#[derive(Clone, Copy, Debug, PartialEq, Eq, Structural)]
pub enum SameSite {
    Strict,
    Lax,
    NoRestriction,
}

/// Why a cookie could not be set.
#[derive(Clone, Copy, Debug, PartialEq, Eq, Structural)]
pub enum CookieError {
    /// The name or the value holds a control character or ';'.
    InvalidCharacter,
    /// The name is empty and the value holds '='.
    InvalidValue,
    /// The name and the value are both empty.
    EmptyNameAndValue,
    /// The name and the value take more than 4096 bytes together.
    NameValueTooLong,
    /// The URL has no host.
    InvalidHost,
    /// The domain starts with '.'.
    DomainStartsWithDot,
    /// The domain takes more than 1024 bytes.
    DomainTooLong,
    /// The path does not start with '/'.
    PathNotAbsolute,
    /// The path takes more than 1024 bytes.
    PathTooLong,
}

/// A cookie that passed the checks, with its attributes.
pub struct CookieAttributes {
    pub name: String,
    pub value: String,
    pub expires: Option<u64>,
    pub domain: Option<String>,
    /// The path, ending with '/'.
    pub path: Option<String>,
    pub same_site: Option<SameSite>,
    pub partitioned: bool,
}

/// `path` with '/' appended where it does not end with one.
pub open spec fn normalized_path(path: Seq<char>) -> Seq<char> {
    if path.len() > 0 && path.last() == '/' {
        path
    } else {
        path.push('/')
    }
}

/// The first check of "set a cookie" that fails, if any.
pub open spec fn cookie_error(
    url: Seq<char>,
    name: Seq<char>,
    value: Seq<char>,
    domain: Option<Seq<char>>,
    path: Option<Seq<char>>,
) -> Option<CookieError> {
    if has_disallowed_char(name) || has_disallowed_char(value) {
        Some(CookieError::InvalidCharacter)
    } else if name.len() == 0 && value.contains('=') {
        Some(CookieError::InvalidValue)
    } else if name.len() == 0 && value.len() == 0 {
        Some(CookieError::EmptyNameAndValue)
    } else if utf8_len(name) + utf8_len(value) > 4096 {
        Some(CookieError::NameValueTooLong)
    } else if host_of(url) is None {
        Some(CookieError::InvalidHost)
    } else if domain is Some && domain->0.len() > 0 && domain->0[0] == '.' {
        Some(CookieError::DomainStartsWithDot)
    } else if domain is Some && utf8_len(domain->0) > 1024 {
        Some(CookieError::DomainTooLong)
    } else if path is Some && !(path->0.len() > 0 && path->0[0] == '/') {
        Some(CookieError::PathNotAbsolute)
    } else if path is Some && utf8_len(normalized_path(path->0)) > 1024 {
        Some(CookieError::PathTooLong)
    } else {
        None
    }
}

/// The view of an optional string.
pub open spec fn opt_view(s: Option<String>) -> Option<Seq<char>> {
    match s {
        Some(v) => Some(v@),
        None => None,
    }
}

/// Whether `s` holds `c`.
fn contains_char(s: &Vec<char>, c: char) -> (r: bool)
    ensures
        r == s@.contains(c),
{
    let mut i: usize = 0;
    while i < s.len()
        invariant
            i <= s@.len(),
            forall|j: int| 0 <= j < i ==> s@[j] != c,
        decreases s@.len() - i,
    {
        if s[i] == c {
            assert(s@[i as int] == c);
            return true;
        }
        i += 1;
    }
    false
}

/// Runs the checks of "set a cookie" on a cookie for `url`, and returns the cookie with its
/// attributes, the path ending with '/', where they all pass.
pub fn set_a_cookie(
    url: &str,
    name: String,
    value: String,
    expires: Option<u64>,
    domain: Option<String>,
    path: Option<String>,
    same_site: Option<SameSite>,
    partitioned: bool,
) -> (r: Result<CookieAttributes, CookieError>)
    ensures
        match cookie_error(url@, name@, value@, opt_view(domain), opt_view(path)) {
            Some(e) => r == Err::<CookieAttributes, CookieError>(e),
            None => match r {
                Ok(c) => {
                    &&& c.name == name
                    &&& c.value == value
                    &&& c.expires == expires
                    &&& c.domain == domain
                    &&& opt_view(c.path) == (match path {
                        Some(p) => Some(normalized_path(p@)),
                        None => None,
                    })
                    &&& c.same_site == same_site
                    &&& c.partitioned == partitioned
                },
                Err(_) => false,
            },
        },
{
    if contains_disallowed_chars(name.as_str()) || contains_disallowed_chars(value.as_str()) {
        return Err(CookieError::InvalidCharacter);
    }
    let value_chars = chars_of(value.as_str());
    if name.as_str().is_empty() && contains_char(&value_chars, '=') {
        return Err(CookieError::InvalidValue);
    }
    if name.as_str().is_empty() && value.as_str().is_empty() {
        return Err(CookieError::EmptyNameAndValue);
    }
    let name_len = name.as_str().len();
    let value_len = value.as_str().len();
    if name_len > MAX_NAME_VALUE_PAIR_SIZE || value_len > MAX_NAME_VALUE_PAIR_SIZE - name_len {
        return Err(CookieError::NameValueTooLong);
    }
    if url_host(url).is_none() {
        return Err(CookieError::InvalidHost);
    }
    match &domain {
        Some(d) => {
            let d_chars = chars_of(d.as_str());
            if d_chars.len() > 0 && d_chars[0] == '.' {
                return Err(CookieError::DomainStartsWithDot);
            }
            if d.as_str().len() > MAX_ATTRIBUTE_VALUE_SIZE {
                return Err(CookieError::DomainTooLong);
            }
        },
        None => {},
    }
    let normalized = match path {
        Some(p) => {
            let p_chars = chars_of(p.as_str());
            if !(p_chars.len() > 0 && p_chars[0] == '/') {
                return Err(CookieError::PathNotAbsolute);
            }
            let mut p = p;
            if !(p_chars[p_chars.len() - 1] == '/') {
                push_char(&mut p, '/');
            }
            if p.as_str().len() > MAX_ATTRIBUTE_VALUE_SIZE {
                return Err(CookieError::PathTooLong);
            }
            Some(p)
        },
        None => None,
    };
    Ok(CookieAttributes {
        name,
        value,
        expires,
        domain,
        path: normalized,
        same_site,
        partitioned,
    })
}

} // verus!
