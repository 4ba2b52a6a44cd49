use http::HeaderMap;
use multer_derive::derive::{judge_member, DeriveError};
use multer_derive::helpers::ToBytes;
use multer_derive::multipart_form::{asked_label, effective_label};
use multer_derive::{Error, FieldParts, FormContext, FromMultipart, FromMultipartField, MultipartForm};
use std::borrow::Cow;
use std::cell::{Cell, RefCell};
use std::marker::PhantomData;
use std::num::Wrapping;
use std::sync::atomic::{
    AtomicBool, AtomicI16, AtomicI32, AtomicI64, AtomicI8, AtomicIsize, AtomicU16, AtomicU32,
    AtomicU64, AtomicU8, AtomicUsize, Ordering,
};
use std::sync::{Mutex, RwLock};

fn form() -> MultipartForm {
    let text = |name: &str, content: &str| FieldParts {
        name: Some(name.to_owned()),
        file_name: None,
        content_type: None,
        headers: HeaderMap::new(),
        bytes: content.as_bytes().to_vec(),
    };
    MultipartForm::with_multipart(vec![
        text("age", "25"),
        text("name", "John"),
        text("flag", "true"),
        text("debt", "-3"),
    ])
}

fn named(name: &str) -> FormContext<'_> {
    FormContext {
        field_name: Some(name),
    }
}

#[test]
fn cells_and_locks_hold_what_converts() {
    let form = form();
    assert_eq!(<Cell<u8>>::from_multipart(&form, named("age")).unwrap().get(), 25);
    assert_eq!(*<RefCell<String>>::from_multipart(&form, named("name")).unwrap().borrow(), "John");
    assert_eq!(*<Mutex<u8>>::from_multipart(&form, named("age")).unwrap().lock().unwrap(), 25);
    assert_eq!(*<RwLock<bool>>::from_multipart(&form, named("flag")).unwrap().read().unwrap(), true);
    assert_eq!(<Wrapping<u8>>::from_multipart(&form, named("age")).unwrap(), Wrapping(25));

    assert_eq!(<Cell<u8>>::from_field(&form[0], &form).unwrap().get(), 25);
    assert_eq!(*<RefCell<u8>>::from_field(&form[0], &form).unwrap().borrow(), 25);
    assert_eq!(*<Mutex<u8>>::from_field(&form[0], &form).unwrap().lock().unwrap(), 25);
    assert_eq!(*<RwLock<u8>>::from_field(&form[0], &form).unwrap().read().unwrap(), 25);
    assert_eq!(<Wrapping<i8>>::from_field(&form[3], &form).unwrap(), Wrapping(-3));
    assert_eq!(
        <Mutex<Option<u8>>>::from_field(&form[1], &form).unwrap().into_inner().unwrap(),
        None
    );
}

#[test]
fn cells_and_locks_fail_as_what_they_hold() {
    let form = form();
    let parse_failure = |e: Error| match e {
        Error::Parse { text, target } => {
            assert_eq!(text, "John");
            assert_eq!(target, "u8");
        }
        _ => panic!("expected a parse error"),
    };
    parse_failure(<Cell<u8>>::from_field(&form[1], &form).unwrap_err());
    parse_failure(<RefCell<u8>>::from_field(&form[1], &form).unwrap_err());
    parse_failure(<Mutex<u8>>::from_field(&form[1], &form).unwrap_err());
    parse_failure(<RwLock<u8>>::from_field(&form[1], &form).unwrap_err());
    parse_failure(<Wrapping<u8>>::from_field(&form[1], &form).unwrap_err());
    parse_failure(AtomicU8::from_field(&form[1], &form).unwrap_err());
    assert!(matches!(
        <Mutex<u8>>::from_multipart(&form, named("absent")),
        Err(Error::FieldNotFound { .. })
    ));
    assert!(matches!(
        AtomicU8::from_multipart(&form, FormContext::default()),
        Err(Error::MissingContext)
    ));
}

#[test]
fn atomics_hold_what_the_text_reads_as() {
    let form = form();
    let order = Ordering::SeqCst;
    assert_eq!(AtomicBool::from_multipart(&form, named("flag")).unwrap().load(order), true);
    assert_eq!(AtomicI8::from_multipart(&form, named("debt")).unwrap().load(order), -3);
    assert_eq!(AtomicI16::from_multipart(&form, named("debt")).unwrap().load(order), -3);
    assert_eq!(AtomicI32::from_multipart(&form, named("debt")).unwrap().load(order), -3);
    assert_eq!(AtomicI64::from_multipart(&form, named("debt")).unwrap().load(order), -3);
    assert_eq!(AtomicIsize::from_multipart(&form, named("debt")).unwrap().load(order), -3);
    assert_eq!(AtomicU8::from_multipart(&form, named("age")).unwrap().load(order), 25);
    assert_eq!(AtomicU16::from_multipart(&form, named("age")).unwrap().load(order), 25);
    assert_eq!(AtomicU32::from_multipart(&form, named("age")).unwrap().load(order), 25);
    assert_eq!(AtomicU64::from_multipart(&form, named("age")).unwrap().load(order), 25);
    assert_eq!(AtomicUsize::from_multipart(&form, named("age")).unwrap().load(order), 25);
    assert_eq!(AtomicU8::from_field(&form[0], &form).unwrap().load(order), 25);
    assert!(AtomicU8::from_field(&form[3], &form).is_err());
    assert!(AtomicBool::from_field(&form[0], &form).is_err());
}

#[test]
fn a_marker_converts_from_any_field() {
    let form = form();
    assert_eq!(<PhantomData<u8>>::from_field(&form[1], &form).unwrap(), PhantomData);
    assert_eq!(<PhantomData<String>>::from_multipart(&form, named("age")).unwrap(), PhantomData);
    assert!(<PhantomData<u8>>::from_multipart(&form, named("absent")).is_err());
}

#[test]
fn borrowed_or_owned_contents() {
    let borrowed: Cow<'_, [u8]> = Cow::Borrowed(&[1, 2, 3]);
    assert_eq!(borrowed.to_bytes(), vec![1, 2, 3]);
    let owned: Cow<'_, [u8]> = Cow::Owned(vec![4, 5]);
    assert_eq!(owned.to_bytes(), vec![4, 5]);
    let borrowed: Cow<'_, str> = Cow::Borrowed("hé");
    assert_eq!(borrowed.to_bytes(), "hé".as_bytes());
    let owned: Cow<'_, str> = Cow::Owned("ok".to_owned());
    assert_eq!(owned.to_bytes(), b"ok");
}

#[test]
fn the_rename_is_judged_before_the_function() {
    assert_eq!(judge_member(true, true, 3), None);
    assert_eq!(judge_member(false, true, 3), Some(DeriveError::InvalidRename { member: 3 }));
    assert_eq!(judge_member(true, false, 3), Some(DeriveError::InvalidWith { member: 3 }));
    assert_eq!(judge_member(false, false, 0), Some(DeriveError::InvalidRename { member: 0 }));
}

#[test]
fn the_label_of_a_field() {
    let charset = Some("iso-8859-1".to_owned());
    assert_eq!(asked_label(&charset, "utf-16"), "iso-8859-1");
    assert_eq!(asked_label(&None, "utf-16"), "utf-16");
    assert_eq!(effective_label("klingon", false), "utf-8");
    assert_eq!(effective_label("latin1", true), "latin1");
}

#[test]
fn buffers_of_other_kinds() {
    let shared = multer::bytes::Bytes::from_static(b"shared");
    assert_eq!(shared.to_bytes(), b"shared");
    let mut growable = multer::bytes::BytesMut::new();
    growable.extend_from_slice(b"grown");
    assert_eq!(growable.to_bytes(), b"grown");
    let mut rest = "abc".bytes();
    rest.next();
    assert_eq!(rest.to_bytes(), b"bc");
}
