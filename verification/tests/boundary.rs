use webview::boundary::{from_foreign, to_foreign, to_foreign_opt, BoundaryError, ForeignBuffer};

#[test]
fn to_foreign_appends_terminator() {
    let buf = to_foreign("hello").unwrap();
    assert_eq!(buf.as_bytes().as_slice(), b"hello\0");
}

#[test]
fn to_foreign_empty_is_just_terminator() {
    let buf = to_foreign("").unwrap();
    assert_eq!(buf.as_bytes().as_slice(), b"\0");
    assert_eq!(ForeignBuffer::empty().as_bytes().as_slice(), b"\0");
}

#[test]
fn to_foreign_rejects_interior_nul() {
    let r = to_foreign("he\0llo");
    assert!(matches!(r, Err(BoundaryError::InteriorNul)));
}

#[test]
fn to_foreign_non_ascii_uses_utf8_bytes() {
    let buf = to_foreign("héllo").unwrap();
    let mut expected = "héllo".as_bytes().to_vec();
    expected.push(0);
    assert_eq!(buf.as_bytes().as_slice(), expected.as_slice());
}

#[test]
fn to_foreign_opt_none_is_null() {
    let r = to_foreign_opt(None).unwrap();
    assert!(r.is_none());
}

#[test]
fn to_foreign_opt_some_encodes() {
    let r = to_foreign_opt(Some("abc")).unwrap().unwrap();
    assert_eq!(r.as_bytes().as_slice(), b"abc\0");
}

#[test]
fn from_foreign_null_pointer_is_no_value() {
    assert!(from_foreign(None).is_none());
}

#[test]
fn from_foreign_reads_utf8() {
    let s = from_foreign(Some(b"title".to_vec())).unwrap();
    assert_eq!(s, "title");
}

#[test]
fn from_foreign_invalid_utf8_is_quietly_dropped() {
    assert!(from_foreign(Some(vec![0xff, 0xfe, 0x61])).is_none());
}

#[test]
fn boundary_round_trip() {
    let buf = to_foreign("round trip ✓").unwrap();
    let mut bytes = buf.into_bytes();
    let terminator = bytes.pop();
    assert_eq!(terminator, Some(0));
    let back = from_foreign(Some(bytes)).unwrap();
    assert_eq!(back, "round trip ✓");
}
