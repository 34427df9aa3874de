use session_history::datatransfer::{
    DataTransferItem, DataTransferItemList, DataTransferItemValue, DataTransferMode, File,
};
use session_history::dom_misc::ClipboardItem;
use session_history::navigation::DomError;
use session_history::navigator::{send_beacon, BeaconData, Gamepad, Navigator, RequestMode};
use session_history::reports::{
    effective_directive, CSPViolationReportBody, InlineCheckType, NotRestoredReasonDetails,
    SecurityPolicyViolationEvent, SecurityPolicyViolationEventDisposition, ViolationDestination,
};
use session_history::response::{is_null_body_status, is_redirect_status, is_valid_status_text, ResponseBody};
use session_history::trusted_types::{TrustedResult, TrustedTypeName, TrustedTypePolicy, TrustedTypePolicyOptions};

fn string_item(t: &str, data: &str) -> DataTransferItem {
    DataTransferItem::new("string".to_owned(), t.to_owned(), DataTransferItemValue::String(data.to_owned()))
}

fn file_item(t: &str) -> DataTransferItem {
    DataTransferItem::new("file".to_owned(), t.to_owned(), DataTransferItemValue::File(File::new("a.png".to_owned(), t.to_owned())))
}

#[test]
fn add_string_rejects_existing_lowercased_format() {
    let mut list = DataTransferItemList::new(vec![string_item("text/plain", "x")]);
    assert_eq!(list.add_string("y".to_owned(), "TEXT/PLAIN".to_owned(), 7).err(), Some(DomError::NotSupported));
    assert_eq!(list.list.len(), 1);
    let added = list.add_string("z".to_owned(), "text/html".to_owned(), 9).unwrap().unwrap();
    assert_eq!(added.kind(), "string");
    assert_eq!(added.type_(), "text/html");
    assert_eq!(list.types(), vec!["text/plain".to_owned(), "text/html".to_owned()]);
    assert_eq!(list.cache_key(), 9);
}

#[test]
fn types_list_mentions_files() {
    let mut list = DataTransferItemList::new(vec![]);
    assert!(list.add_file(File::new("a.png".to_owned(), "image/png".to_owned()), 3).is_some());
    list.add_string("t".to_owned(), "text/plain".to_owned(), 4).unwrap();
    assert_eq!(list.types(), vec!["text/plain".to_owned(), "Files".to_owned()]);
    assert_eq!(list.get_files().len(), 1);
    assert_eq!(list.get_files()[0].type_string, "image/png");
}

#[test]
fn remove_string_entries_keeps_files() {
    let mut list = DataTransferItemList::new(vec![string_item("a", "1"), file_item("image/png"), string_item("b", "2")]);
    list.remove_string_entries(5);
    assert_eq!(list.length(), 1);
    assert_eq!(list.types(), vec!["Files".to_owned()]);
    assert_eq!(list.cache_key(), 5);
}

#[test]
fn remove_by_format_only_touches_that_format() {
    let mut list = DataTransferItemList::new(vec![string_item("a", "1"), file_item("a"), string_item("b", "2")]);
    list.remove_string_entries_by_format(&"a".to_owned(), 6);
    assert_eq!(list.length(), 2);
    assert_eq!(list.indexed_getter(0).unwrap().kind(), "file");
    assert_eq!(list.indexed_getter(1).unwrap().type_(), "b");
    list.remove_string_entries_by_format(&"zzz".to_owned(), 8);
    assert_eq!(list.cache_key(), 6);
}

#[test]
fn read_only_list_refuses_changes() {
    let mut list = DataTransferItemList::new(vec![string_item("a", "1")]);
    list.mode = DataTransferMode::ReadOnly;
    assert_eq!(list.add_data("x".to_owned(), "b".to_owned(), 1).unwrap().is_none(), true);
    assert_eq!(list.remove(0, 1), Err(DomError::InvalidState));
    list.clear(1);
    assert_eq!(list.length(), 1);
    assert_eq!(*list.get_mode(), DataTransferMode::ReadOnly);
}

#[test]
fn remove_and_clear() {
    let mut list = DataTransferItemList::new(vec![string_item("a", "1"), string_item("b", "2")]);
    assert_eq!(list.remove(5, 1), Ok(()));
    assert_eq!(list.length(), 2);
    assert_eq!(list.remove(0, 2), Ok(()));
    assert_eq!(list.types(), vec!["b".to_owned()]);
    list.clear(3);
    assert_eq!(list.length(), 0);
    assert!(list.types().is_empty());
    assert!(list.indexed_getter(0).is_none());
}

#[test]
fn item_accessors() {
    let f = file_item("image/gif");
    assert_eq!(f.get_as_file().unwrap().name, "a.png");
    let s = string_item("text/plain", "hi");
    assert!(s.get_as_file().is_none());
    match s.value() {
        DataTransferItemValue::String(v) => assert_eq!(v, "hi"),
        _ => panic!("expected a string"),
    }
}

#[test]
fn gamepad_slots() {
    let mut nav = Navigator::new();
    assert_eq!(nav.select_gamepad_index(), 0);
    assert_eq!(nav.select_gamepad_index(), 0);
    assert!(!nav.set_gamepad(0, Gamepad { id: 1, exposed: false }, true));
    assert_eq!(nav.get_gamepad(0), Some(Gamepad { id: 1, exposed: false }));
    assert_eq!(nav.select_gamepad_index(), 1);
    nav.set_has_gamepad_gesture(true);
    assert!(nav.has_gamepad_gesture());
    assert!(nav.set_gamepad(1, Gamepad { id: 2, exposed: false }, true));
    assert_eq!(nav.get_gamepad(1), Some(Gamepad { id: 2, exposed: true }));
    assert!(!nav.set_gamepad(1, Gamepad { id: 2, exposed: false }, false));
    nav.remove_gamepad(0);
    assert_eq!(nav.gamepads.len(), 2);
    assert_eq!(nav.select_gamepad_index(), 0);
    nav.remove_gamepad(1);
    assert_eq!(nav.gamepads.len(), 0);
    assert!(nav.get_gamepad(0).is_none());
    assert!(nav.xr().is_none());
}

#[test]
fn status_checks() {
    assert!(is_redirect_status(301));
    assert!(is_redirect_status(308));
    assert!(!is_redirect_status(304));
    assert!(is_null_body_status(204));
    assert!(is_null_body_status(101));
    assert!(!is_null_body_status(200));
    assert!(is_valid_status_text(b"Not Found\t\x80\xff"));
    assert!(!is_valid_status_text(b"bad\r\n"));
    assert!(is_valid_status_text(b""));
    assert!(ResponseBody::Done(vec![1]).is_done());
    assert!(!ResponseBody::Receiving(vec![]).is_done());
    assert!(!ResponseBody::Empty.is_done());
}

#[test]
fn trusted_type_policies() {
    let options = TrustedTypePolicyOptions { create_html: true, create_script: false, create_script_url: true };
    let policy = TrustedTypePolicy::new("p".to_owned(), options);
    assert_eq!(policy.name(), "p");
    assert_eq!(policy.create_html(Some("<b>".to_owned())).unwrap().data, "<b>");
    assert_eq!(policy.create_html(None).err(), Some(DomError::Data));
    assert_eq!(policy.create_script_url(Some("x.js".to_owned())).unwrap().data, "x.js");
    assert!(matches!(
        policy.create_trusted_type(TrustedTypeName::TrustedScript, Some("s".to_owned())),
        Err(DomError::Type)
    ));
    assert!(matches!(
        policy.get_trusted_type_policy_value(TrustedTypeName::TrustedScriptURL, Some("u".to_owned())),
        Ok(TrustedResult::ScriptURL(_))
    ));
}

#[test]
fn small_types() {
    assert!(!ClipboardItem::Supports("text/plain"));
    let body = CSPViolationReportBody::new();
    assert_eq!(body.Disposition(), SecurityPolicyViolationEventDisposition::Report);
    assert_eq!(body.StatusCode(), 0);
    assert_eq!(body.DocumentURL(), "");
    assert!(body.GetLineNumber().is_none());
    assert_eq!(NotRestoredReasonDetails::new("fetch".to_owned()).reason(), "fetch");
}

#[test]
fn beacon_decisions() {
    let base = "https://example.com/app/";
    let r = send_beacon(base, "log", None).unwrap().unwrap();
    assert_eq!(r.url, "https://example.com/app/log");
    assert_eq!(r.mode, RequestMode::NoCors);
    assert!(!r.has_body);
    assert_eq!(send_beacon(base, "ftp://example.com/x", None).err(), Some(DomError::Type));
    assert_eq!(send_beacon("nope", "log", None).err(), Some(DomError::Type));
    let stream = BeaconData { is_readable_stream: true, total_bytes: None, content_type: None, content_type_safelisted: false };
    assert_eq!(send_beacon(base, "log", Some(stream)).err(), Some(DomError::Type));
    let big = BeaconData { is_readable_stream: false, total_bytes: Some(65537), content_type: None, content_type_safelisted: false };
    assert!(send_beacon(base, "log", Some(big)).unwrap().is_none());
    let json = BeaconData { is_readable_stream: false, total_bytes: Some(65536), content_type: Some("application/json".to_owned()), content_type_safelisted: false };
    let r = send_beacon(base, "log", Some(json)).unwrap().unwrap();
    assert_eq!(r.mode, RequestMode::CorsMode);
    assert_eq!(r.content_type.as_deref(), Some("application/json"));
    let text = BeaconData { is_readable_stream: false, total_bytes: Some(3), content_type: Some("text/plain".to_owned()), content_type_safelisted: true };
    assert_eq!(send_beacon(base, "log", Some(text)).unwrap().unwrap().mode, RequestMode::NoCors);
}

#[test]
fn violation_events() {
    assert_eq!(effective_directive(Some(InlineCheckType::ScriptAttribute), ViolationDestination::Style), "script-src-attr");
    assert_eq!(effective_directive(Some(InlineCheckType::Style), ViolationDestination::Script), "style-src-attr");
    assert_eq!(effective_directive(None, ViolationDestination::Script), "script-src-elem");
    assert_eq!(effective_directive(None, ViolationDestination::Style), "style-src-elem");
    assert_eq!(effective_directive(None, ViolationDestination::Audio), "media-src");
    let e = SecurityPolicyViolationEvent::new(None, ViolationDestination::Audio, None);
    assert_eq!(e.document_uri, "inline");
    assert_eq!(e.blocked_uri, "inline");
    assert_eq!(e.violated_directive(), "media-src");
    let e = SecurityPolicyViolationEvent::new(Some("https://example.com/".to_owned()), ViolationDestination::Script, None);
    assert_eq!(e.blocked_uri, "https://example.com/");
    assert_eq!(e.effective_directive(), "script-src-elem");
}

#[test]
fn gamepads_hidden_until_gesture() {
    let mut nav = Navigator::new();
    nav.select_gamepad_index();
    nav.set_gamepad(0, Gamepad { id: 3, exposed: false }, true);
    assert!(nav.get_gamepads(true).is_empty());
    nav.set_has_gamepad_gesture(true);
    assert!(nav.get_gamepads(false).is_empty());
    assert_eq!(nav.get_gamepads(true), vec![Some(Gamepad { id: 3, exposed: false })]);
}
