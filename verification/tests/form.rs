use http::{HeaderMap, HeaderValue};
use multer_derive::multipart_form::MAX_FIELD_BYTES;
use multer_derive::{FieldParts, MultipartField, MultipartForm};

fn text_field(name: Option<&str>, content: &[u8]) -> FieldParts {
    FieldParts {
        name: name.map(|s| s.to_owned()),
        file_name: None,
        content_type: None,
        headers: HeaderMap::new(),
        bytes: content.to_vec(),
    }
}

fn typed_field(content_type: &str, content: &[u8]) -> MultipartField {
    MultipartField::new(
        FieldParts {
            name: Some("field".to_owned()),
            file_name: None,
            content_type: Some(content_type.to_owned()),
            headers: HeaderMap::new(),
            bytes: content.to_vec(),
        },
        0,
    )
}

#[test]
fn fields_get_their_positions() {
    let form = MultipartForm::with_multipart(vec![
        text_field(Some("a"), b"1"),
        text_field(None, b"2"),
        text_field(Some("a"), b"3"),
    ]);
    assert_eq!(form.len(), 3);
    assert!(!form.is_empty());
    for i in 0..3 {
        assert_eq!(form[i].index(), i);
        assert_eq!(form.get(i).unwrap().index(), i);
    }
    assert!(form.get(3).is_none());
    assert_eq!(form.fields().len(), 3);
    assert_eq!(form[1].name(), None);
    assert_eq!(form[2].bytes().as_slice(), b"3");
}

#[test]
fn an_empty_form() {
    let form = MultipartForm::with_multipart(vec![]);
    assert_eq!(form.len(), 0);
    assert!(form.is_empty());
    assert!(form.get(0).is_none());
    assert!(form.get_by_name("a").is_none());
}

#[test]
fn lookup_by_name_finds_the_first_field_of_that_name() {
    let form = MultipartForm::with_multipart(vec![
        text_field(None, b"unnamed"),
        text_field(Some("b"), b"first b"),
        text_field(Some("a"), b"first a"),
        text_field(Some("b"), b"second b"),
    ]);
    assert_eq!(form.get_by_name("b").unwrap().index(), 1);
    assert_eq!(form.get_by_name("a").unwrap().index(), 2);
    assert!(form.get_by_name("c").is_none());
    assert!(form.get_by_name("").is_none());
    assert!(form.get_by_name("B").is_none());
}

#[test]
fn a_field_keeps_what_it_was_made_of() {
    let mut headers = HeaderMap::new();
    headers.insert("content-type", HeaderValue::from_static("image/png"));
    headers.append("x-note", HeaderValue::from_static("one"));
    headers.append("x-note", HeaderValue::from_static("two"));
    let field = MultipartField::new(
        FieldParts {
            name: Some("photo".to_owned()),
            file_name: Some("me.png".to_owned()),
            content_type: Some("image/png".to_owned()),
            headers: headers.clone(),
            bytes: vec![1, 2, 3],
        },
        7,
    );
    assert_eq!(field.index(), 7);
    assert_eq!(field.name(), Some("photo"));
    assert_eq!(field.file_name(), Some("me.png"));
    assert_eq!(field.content_type(), Some("image/png"));
    assert_eq!(field.headers(), &headers);
    assert_eq!(field.bytes(), &vec![1, 2, 3]);

    let copy = field.clone();
    assert_eq!(copy.index(), 7);
    assert_eq!(copy.name(), Some("photo"));
    assert_eq!(copy.headers(), &headers);
    assert_eq!(copy.bytes(), &vec![1, 2, 3]);
}

#[test]
fn a_form_can_be_copied() {
    let form = MultipartForm::with_multipart(vec![
        text_field(Some("a"), b"1"),
        text_field(Some("b"), b"2"),
    ]);
    let copy = form.clone();
    assert_eq!(copy.len(), 2);
    assert_eq!(copy[1].name(), Some("b"));
    assert_eq!(copy[1].index(), 1);
    assert_eq!(copy[1].text(), "2");
}

#[test]
fn text_is_utf8_by_default() {
    let field = MultipartField::new(text_field(Some("t"), "grüße €".as_bytes()), 0);
    assert_eq!(field.text(), "grüße €");
    // Malformed sequences become the replacement character.
    let field = MultipartField::new(text_field(Some("t"), &[b'a', 0xFF, b'b']), 0);
    assert_eq!(field.text(), "a\u{FFFD}b");
    // A byte order mark is left out.
    let field = MultipartField::new(text_field(Some("t"), &[0xEF, 0xBB, 0xBF, b'x']), 0);
    assert_eq!(field.text(), "x");
    let field = MultipartField::new(text_field(Some("t"), b""), 0);
    assert_eq!(field.text(), "");
}

#[test]
fn the_charset_of_the_content_type_decides() {
    // 0xE9 is `é` in Latin-1 and malformed in UTF-8.
    let latin = typed_field("text/plain; charset=iso-8859-1", &[b'c', b'a', b'f', 0xE9]);
    assert_eq!(latin.text(), "café");
    assert_eq!(latin.text_with_charset("utf-8"), "café");

    let upper = typed_field("TEXT/PLAIN; CHARSET=ISO-8859-1", &[0xE9]);
    assert_eq!(upper.text(), "é");

    let utf8 = typed_field("text/plain; charset=utf-8", &[0xE9]);
    assert_eq!(utf8.text(), "\u{FFFD}");
    assert_eq!(utf8.text_with_charset("iso-8859-1"), "\u{FFFD}");

    let utf16 = typed_field("text/plain; charset=utf-16le", &[0x3A, 0x26]);
    assert_eq!(utf16.text(), "☺");
}

#[test]
fn the_default_encoding_is_used_where_the_content_type_names_none() {
    let plain = typed_field("text/plain", &[0xE9]);
    assert_eq!(plain.text(), "\u{FFFD}");
    assert_eq!(plain.text_with_charset("iso-8859-1"), "é");
    assert_eq!(plain.text_with_charset("latin1"), "é");
    assert_eq!(plain.text_with_charset(" Latin1 "), "é");

    let other = typed_field("text/plain; format=flowed", &[0xE9]);
    assert_eq!(other.text_with_charset("windows-1252"), "é");

    let untyped = MultipartField::new(text_field(Some("t"), &[0xE9]), 0);
    assert_eq!(untyped.text_with_charset("iso-8859-1"), "é");
}

#[test]
fn an_unknown_label_falls_back_to_utf8() {
    let unknown = typed_field("text/plain; charset=klingon", "é".as_bytes());
    assert_eq!(unknown.text(), "é");
    assert_eq!(unknown.text_with_charset("iso-8859-1"), "é");

    let plain = typed_field("text/plain", "é".as_bytes());
    assert_eq!(plain.text_with_charset("no such encoding"), "é");
    assert_eq!(plain.text_with_charset(""), "é");

    // What is no media type has no charset.
    let broken = typed_field("charset=iso-8859-1", &[0xE9]);
    assert_eq!(broken.text(), "\u{FFFD}");
    assert_eq!(broken.text_with_charset("iso-8859-1"), "é");
}

#[test]
fn the_limit_on_a_field_is_far_away() {
    assert_eq!(MAX_FIELD_BYTES, usize::MAX / 8);
}
