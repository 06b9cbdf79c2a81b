use file_dialog::dialog::{keep_strings, Dialog, DialogError};

fn extensions_of(d: &Dialog, i: usize) -> Vec<String> {
    d.filters()[i].extensions.clone()
}

#[test]
fn new_dialog_is_unconfigured() {
    let d = Dialog::new();
    assert_eq!(d.directory(), None);
    assert!(d.filters().is_empty());
}

#[test]
fn set_directory_accepts_any_text() {
    let d = Dialog::new().set_directory("/tmp/some dir".as_bytes()).unwrap();
    assert_eq!(d.directory(), Some("/tmp/some dir".to_string()));
    let d = Dialog::new().set_directory("/home/ünïcödé/写真".as_bytes()).unwrap();
    assert_eq!(d.directory(), Some("/home/ünïcödé/写真".to_string()));
    let d = Dialog::new().set_directory(b"/no/such/place").unwrap();
    assert_eq!(d.directory(), Some("/no/such/place".to_string()));
}

#[test]
fn set_directory_keeps_filters() {
    let d = Dialog::new().add_filter(b"[\"png\"]").unwrap();
    let e = d.set_directory(b"/srv").unwrap();
    assert_eq!(e.filters().len(), 1);
    assert_eq!(extensions_of(&e, 0), vec!["png".to_string()]);
}

#[test]
fn set_directory_rejects_invalid_utf8() {
    let r = Dialog::new().set_directory(&[0x2f, 0xff, 0xfe]);
    assert!(matches!(r, Err(DialogError::InvalidEncoding)));
}

#[test]
fn add_filter_accumulates() {
    let d = Dialog::new()
        .add_filter(b"[\"png\",\"jpg\"]")
        .unwrap()
        .add_filter(b"[\"gif\"]")
        .unwrap();
    let fs = d.filters();
    assert_eq!(fs.len(), 2);
    assert_eq!(fs[0].extensions, vec!["png".to_string(), "jpg".to_string()]);
    assert_eq!(fs[1].extensions, vec!["gif".to_string()]);
    assert_eq!(fs[0].name, "fff");
    assert_eq!(fs[1].name, "fff");
}

#[test]
fn add_filter_drops_non_strings() {
    let d = Dialog::new().add_filter(b"[\"png\", 5, \"jpg\"]").unwrap();
    assert_eq!(extensions_of(&d, 0), vec!["png".to_string(), "jpg".to_string()]);
    let d = Dialog::new().add_filter(b"[null, true, {\"a\": 1}, [\"x\"], 2.5]").unwrap();
    assert!(extensions_of(&d, 0).is_empty());
}

#[test]
fn add_filter_empty_array() {
    let d = Dialog::new().add_filter(b"[]").unwrap();
    assert_eq!(d.filters().len(), 1);
    assert!(extensions_of(&d, 0).is_empty());
}

#[test]
fn add_filter_rejects_malformed_json() {
    let r = Dialog::new().add_filter(b"not-json");
    assert!(matches!(r, Err(DialogError::MalformedInput)));
    let r = Dialog::new().add_filter(b"[\"png\"");
    assert!(matches!(r, Err(DialogError::MalformedInput)));
    let r = Dialog::new().add_filter(b"");
    assert!(matches!(r, Err(DialogError::MalformedInput)));
}

#[test]
fn add_filter_rejects_non_arrays() {
    let r = Dialog::new().add_filter(b"{\"ext\": [\"png\"]}");
    assert!(matches!(r, Err(DialogError::MalformedInput)));
    let r = Dialog::new().add_filter(b"\"png\"");
    assert!(matches!(r, Err(DialogError::MalformedInput)));
}

#[test]
fn add_filter_rejects_invalid_utf8() {
    let r = Dialog::new().add_filter(&[0x5b, 0xc3, 0x28, 0x5d]);
    assert!(matches!(r, Err(DialogError::InvalidEncoding)));
}

#[test]
fn add_named_filter_uses_name() {
    let d = Dialog::new().add_named_filter("Images", b"[\"png\"]").unwrap();
    assert_eq!(d.filters()[0].name, "Images");
    assert_eq!(extensions_of(&d, 0), vec!["png".to_string()]);
}

#[test]
fn configuration_steps_leave_the_original() {
    let base = Dialog::new().add_filter(b"[\"txt\"]").unwrap();
    let more = base.add_filter(b"[\"md\"]").unwrap();
    let moved = base.set_directory(b"/var").unwrap();
    assert_eq!(base.filters().len(), 1);
    assert_eq!(base.directory(), None);
    assert_eq!(more.filters().len(), 2);
    assert_eq!(more.directory(), None);
    assert_eq!(moved.filters().len(), 1);
    assert_eq!(moved.directory(), Some("/var".to_string()));
}

#[test]
fn keep_strings_keeps_order() {
    let items = vec![
        Some("a".to_string()),
        None,
        Some("c".to_string()),
        None,
        Some("b".to_string()),
    ];
    assert_eq!(keep_strings(&items), vec!["a".to_string(), "c".to_string(), "b".to_string()]);
    assert!(keep_strings(&vec![None, None]).is_empty());
}
