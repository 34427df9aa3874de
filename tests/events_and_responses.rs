use session_history::datatransfer::{
    parse_format, DataTransfer, DataTransferItem, DataTransferItemList, DataTransferItemValue,
    DataTransferMode, DropEffect, EffectAllowed, File,
};
use session_history::dom_misc::InterceptionState;
use session_history::navigate_event::{
    EventContext, NavigateEvent, NavigationFocusReset, NavigationInterceptOptions,
    NavigationScrollBehavior, NavigationType, ScrollAction,
};
use session_history::navigation::DomError;
use session_history::response::{DomResponse, DomResponseType, ExtractedBody};

fn ctx() -> EventContext {
    EventContext { document_fully_active: true, is_trusted: true, canceled: false, dispatching: true }
}

fn event(t: NavigationType) -> NavigateEvent {
    NavigateEvent::new(t, None, true, false, false, false)
}

#[test]
fn intercept_records_options() {
    let mut e = event(NavigationType::Push);
    let options = NavigationInterceptOptions {
        handler: Some(4),
        focus_reset: Some(NavigationFocusReset::Manual),
        scroll: None,
    };
    assert_eq!(e.intercept(ctx(), options), Ok(()));
    assert_eq!(e.interception_state, InterceptionState::Intercepted);
    assert_eq!(e.navigation_handler_list, vec![4]);
    assert_eq!(e.focus_reset, Some(NavigationFocusReset::Manual));
    assert_eq!(e.scroll_behavior, None);
}

#[test]
fn intercept_checks_in_order() {
    let options = NavigationInterceptOptions { handler: None, focus_reset: None, scroll: Some(NavigationScrollBehavior::Manual) };
    let mut e = event(NavigationType::Push);
    let mut c = ctx();
    c.document_fully_active = false;
    c.is_trusted = false;
    assert_eq!(e.intercept(c, options), Err(DomError::InvalidState));
    let mut c = ctx();
    c.is_trusted = false;
    assert_eq!(e.intercept(c, options), Err(DomError::Security));
    let mut c = ctx();
    c.canceled = true;
    assert_eq!(e.intercept(c, options), Err(DomError::InvalidState));
    let mut c = ctx();
    c.dispatching = false;
    assert_eq!(e.intercept(c, options), Err(DomError::InvalidState));
    let mut blocked = NavigateEvent::new(NavigationType::Push, None, false, false, false, false);
    assert_eq!(blocked.intercept(ctx(), options), Err(DomError::Security));
    assert_eq!(e.interception_state, InterceptionState::NotIntercepted);
}

#[test]
fn scroll_needs_commit() {
    let mut e = event(NavigationType::Traverse);
    assert_eq!(e.scroll(ctx()), Err(DomError::InvalidState));
    e.interception_state = InterceptionState::Committed;
    assert_eq!(e.scroll(ctx()), Ok(ScrollAction::ResetTargetAndScroll));
    assert_eq!(e.interception_state, InterceptionState::Scrolled);
    let mut p = event(NavigationType::Push);
    p.interception_state = InterceptionState::Committed;
    assert_eq!(p.scroll(ctx()), Ok(ScrollAction::ScrollToFragment));
}

#[test]
fn formats_are_normalized() {
    assert_eq!(parse_format("TEXT"), "text/plain");
    assert_eq!(parse_format("Url"), "text/uri-list");
    assert_eq!(parse_format("Text/HTML"), "text/html");
}

fn transfer() -> DataTransfer {
    DataTransfer::new_inherited(DataTransferItemList::new(vec![]))
}

#[test]
fn set_and_get_data() {
    let mut dt = transfer();
    dt.set_data("Text", "hello".to_owned(), 1);
    assert_eq!(dt.get_data("text/plain"), "hello");
    dt.set_data("text", "bye".to_owned(), 2);
    assert_eq!(dt.get_data("TEXT"), "bye");
    assert_eq!(dt.item_list.list.len(), 1);
    assert_eq!(dt.get_data("url"), "");
    assert_eq!(dt.types(), vec!["text/plain".to_owned()]);
    assert_eq!(dt.cache_key, 2);
}

#[test]
fn clear_data_by_format_and_all() {
    let mut dt = transfer();
    dt.set_data("text", "a".to_owned(), 1);
    dt.set_data("url", "https://example.com".to_owned(), 2);
    dt.item_list.add_file(File::new("f".to_owned(), "image/png".to_owned()), 3);
    dt.clear_data(Some("URL"), 4);
    assert_eq!(dt.get_data("url"), "");
    assert_eq!(dt.get_data("text"), "a");
    dt.clear_data(None, 5);
    assert_eq!(dt.item_list.list.len(), 1);
    assert_eq!(dt.files().len(), 1);
}

#[test]
fn protected_and_read_only_stores() {
    let mut list = DataTransferItemList::new(vec![DataTransferItem::new(
        "string".to_owned(),
        "text/plain".to_owned(),
        DataTransferItemValue::String("x".to_owned()),
    )]);
    list.mode = DataTransferMode::Protected;
    let mut dt = DataTransfer::new_inherited(list);
    assert_eq!(dt.get_data("text"), "");
    dt.set_drop_effect(DropEffect::Copy);
    assert_eq!(dt.drop_effect, DropEffect::NoEffect);
    dt.item_list.mode = DataTransferMode::ReadOnly;
    assert_eq!(dt.get_data("text"), "x");
    dt.set_data("text", "y".to_owned(), 1);
    assert_eq!(dt.get_data("text"), "x");
    dt.item_list.mode = DataTransferMode::ReadWrite;
    dt.set_effect_allowed(EffectAllowed::CopyMove);
    assert_eq!(dt.effect_allowed, EffectAllowed::CopyMove);
}

#[test]
fn initialize_response_checks_status_and_text() {
    let mut r = DomResponse::new();
    assert_eq!(r.initialize_response(199, vec![], None), Err(DomError::Range));
    assert_eq!(r.initialize_response(600, vec![], None), Err(DomError::Range));
    assert_eq!(r.initialize_response(200, b"OK\n".to_vec(), None), Err(DomError::Type));
    assert_eq!(r.initialize_response(201, b"Created".to_vec(), None), Ok(()));
    assert_eq!(r.status, 201);
    assert!(r.ok());
    let body = ExtractedBody { content_type: Some("text/plain".to_owned()) };
    let mut r = DomResponse::new();
    assert_eq!(r.initialize_response(204, vec![], Some(body)), Err(DomError::Type));
    let body = ExtractedBody { content_type: Some("text/plain".to_owned()) };
    assert_eq!(r.initialize_response(404, vec![], Some(body)), Ok(()));
    assert!(!r.ok());
    assert!(r.has_body);
    assert_eq!(r.headers, vec![("content-type".to_owned(), "text/plain".to_owned())]);
    let body = ExtractedBody { content_type: Some("text/html".to_owned()) };
    assert_eq!(r.initialize_response(200, vec![], Some(body)), Ok(()));
    assert_eq!(r.headers.len(), 1);
}

#[test]
fn redirect_responses() {
    let r = DomResponse::redirect("https://example.com/a/", "b", 302).unwrap();
    assert_eq!(r.status, 302);
    assert_eq!(r.headers, vec![("location".to_owned(), "https://example.com/a/b".to_owned())]);
    assert_eq!(DomResponse::redirect("https://example.com/", "b", 200).err(), Some(DomError::Range));
    assert_eq!(DomResponse::redirect("not a url", "b", 302).err(), Some(DomError::Type));
    let e = DomResponse::error();
    assert_eq!(e.response_type, DomResponseType::Error);
    assert_eq!(e.status, 0);
}

#[test]
fn response_types_hide_members() {
    let mut r = DomResponse::new();
    let body = ExtractedBody { content_type: Some("text/plain".to_owned()) };
    r.initialize_response(200, b"OK".to_vec(), Some(body)).unwrap();
    r.url_list.push("https://example.com/".to_owned());
    let mut opaque = r.clone_response(false, false).unwrap();
    opaque.set_type(DomResponseType::Opaque);
    assert_eq!(opaque.status, 0);
    assert!(opaque.headers.is_empty());
    assert!(opaque.url_list.is_empty());
    assert!(!opaque.has_body);
    let mut redirect = r.clone_response(false, false).unwrap();
    redirect.set_type(DomResponseType::Opaqueredirect);
    assert_eq!(redirect.url_list.len(), 1);
    let mut error = r.clone_response(false, false).unwrap();
    error.set_type(DomResponseType::Error);
    assert!(error.has_body);
    let mut basic = r.clone_response(false, false).unwrap();
    basic.set_type(DomResponseType::Basic);
    assert_eq!(basic.status, 200);
    assert_eq!(basic.status_text, b"OK".to_vec());
    assert_eq!(basic.headers.len(), 1);
    assert_eq!(r.clone_response(true, false).err(), Some(DomError::Type));
    assert_eq!(r.clone_response(false, true).err(), Some(DomError::Type));
}

#[test]
fn drag_image_and_item_strings() {
    let mut dt = transfer();
    dt.set_drag_image(7, false, 1, 2);
    assert!(dt.bitmap_image.is_none());
    dt.set_drag_image(7, true, 1, 2);
    assert_eq!(dt.bitmap_image.map(|b| (b.image, b.image_x, b.image_y)), Some((7, 1, 2)));
    let item = DataTransferItem::new("string".to_owned(), "text/plain".to_owned(), DataTransferItemValue::String("s".to_owned()));
    assert_eq!(item.get_as_string().as_deref(), Some("s"));
    let file = DataTransferItem::new("file".to_owned(), "a/b".to_owned(), DataTransferItemValue::File(File::new("n".to_owned(), "a/b".to_owned())));
    assert!(file.get_as_string().is_none());
}
