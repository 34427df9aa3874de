use session_history::cookie_store::{contains_disallowed_chars, set_a_cookie, CookieError, SameSite};

fn set(name: &str, value: &str, domain: Option<&str>, path: Option<&str>) -> Result<Option<String>, CookieError> {
    set_a_cookie(
        "https://example.com/x",
        name.to_owned(),
        value.to_owned(),
        None,
        domain.map(|d| d.to_owned()),
        path.map(|p| p.to_owned()),
        Some(SameSite::Lax),
        false,
    )
    .map(|c| c.path)
}

#[test]
fn disallowed_characters() {
    assert!(contains_disallowed_chars("a;b"));
    assert!(contains_disallowed_chars("a\u{7f}"));
    assert!(contains_disallowed_chars("a\u{85}"));
    assert!(contains_disallowed_chars("\n"));
    assert!(!contains_disallowed_chars("a\tb c=d"));
    assert_eq!(set("a;", "b", None, None), Err(CookieError::InvalidCharacter));
    assert_eq!(set("a", "b\u{1}", None, None), Err(CookieError::InvalidCharacter));
}

#[test]
fn empty_names() {
    assert_eq!(set("", "a=b", None, None), Err(CookieError::InvalidValue));
    assert_eq!(set("", "", None, None), Err(CookieError::EmptyNameAndValue));
    assert_eq!(set("", "ab", None, None), Ok(None));
}

#[test]
fn size_limits() {
    let name = "n".repeat(2048);
    let value = "v".repeat(2048);
    assert_eq!(set(&name, &value, None, None), Ok(None));
    let value = "é".repeat(1025);
    assert_eq!(set(&name, &value, None, None), Err(CookieError::NameValueTooLong));
    let domain = "d".repeat(1025);
    assert_eq!(set("a", "b", Some(&domain), None), Err(CookieError::DomainTooLong));
    let path = format!("/{}", "p".repeat(1023));
    assert_eq!(set("a", "b", None, Some(&path)), Err(CookieError::PathTooLong));
}

#[test]
fn host_domain_and_path() {
    let no_host = set_a_cookie("data:text/plain,x", "a".to_owned(), "b".to_owned(), None, None, None, None, true);
    assert_eq!(no_host.err(), Some(CookieError::InvalidHost));
    assert_eq!(set("a", "b", Some(".example.com"), None), Err(CookieError::DomainStartsWithDot));
    assert_eq!(set("a", "b", None, Some("docs")), Err(CookieError::PathNotAbsolute));
    assert_eq!(set("a", "b", None, Some("/docs")), Ok(Some("/docs/".to_owned())));
    assert_eq!(set("a", "b", Some("example.com"), Some("/")), Ok(Some("/".to_owned())));
}
