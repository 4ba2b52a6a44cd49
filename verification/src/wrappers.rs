//! Both conversion capabilities for the wrappers that add nothing but an
//! annotation of ownership or of sharing: a wrapper converts where what it
//! wraps converts, holds the value that was converted, and fails as the
//! conversion of that value fails.
//!
//! What a cell, a lock or an atomic holds cannot be read in a contract. So
//! each contract says which value the wrapper was made of: the one that the
//! inner conversion returned.
use crate::error::Error;
use crate::from_multipart::{converts_named, from_named_field, FormContext, FromMultipart};
use crate::from_multipart_field::{field_from_text, reads_text, FromMultipartField};
use crate::multipart_form::{MultipartField, MultipartForm};
use std::cell::{Cell, RefCell};
use std::marker::PhantomData;
use std::num::Wrapping;
use std::sync::atomic::{AtomicBool, AtomicI16, AtomicI32, AtomicI64, AtomicI8, AtomicIsize};
use std::sync::atomic::{AtomicU16, AtomicU32, AtomicU64, AtomicU8, AtomicUsize};
use std::sync::{Mutex, RwLock};
use vstd::prelude::*;

verus! {

/// A cell of the standard library.
#[verifier::external_type_specification]
#[verifier::external_body]
#[verifier::reject_recursive_types(T)]
pub struct ExCell<T: ?Sized>(std::cell::Cell<T>);

/// A cell with borrows checked at run time.
#[verifier::external_type_specification]
#[verifier::external_body]
#[verifier::reject_recursive_types(T)]
pub struct ExRefCell<T: ?Sized>(std::cell::RefCell<T>);

/// A lock for one holder.
#[verifier::external_type_specification]
#[verifier::external_body]
#[verifier::reject_recursive_types(T)]
pub struct ExMutex<T: ?Sized>(std::sync::Mutex<T>);

/// A lock for many readers or one writer.
#[verifier::external_type_specification]
#[verifier::external_body]
#[verifier::reject_recursive_types(T)]
pub struct ExRwLock<T: ?Sized>(std::sync::RwLock<T>);

/// An integer whose arithmetic wraps around.
#[verifier::external_type_specification]
#[verifier::external_body]
#[verifier::reject_recursive_types(T)]
pub struct ExWrapping<T>(std::num::Wrapping<T>);

/// `Cell::new`: a cell that holds the value.
#[verifier::external_body]
fn new_cell<T>(value: T) -> Cell<T> {
    Cell::new(value)
}

/// `made` is the `Cell` that was made of `value`.
pub closed spec fn is_cell_of<T>(value: T, made: Cell<T>) -> bool {
    call_ensures(new_cell::<T>, (value,), made)
}

/// `RefCell::new`: a cell that holds the value.
#[verifier::external_body]
fn new_ref_cell<T>(value: T) -> RefCell<T> {
    RefCell::new(value)
}

/// `made` is the `RefCell` that was made of `value`.
pub closed spec fn is_ref_cell_of<T>(value: T, made: RefCell<T>) -> bool {
    call_ensures(new_ref_cell::<T>, (value,), made)
}

/// `Mutex::new`: an unlocked lock that holds the value.
#[verifier::external_body]
fn new_mutex<T>(value: T) -> Mutex<T> {
    Mutex::new(value)
}

/// `made` is the `Mutex` that was made of `value`.
pub closed spec fn is_mutex_of<T>(value: T, made: Mutex<T>) -> bool {
    call_ensures(new_mutex::<T>, (value,), made)
}

/// `RwLock::new`: an unlocked lock that holds the value.
#[verifier::external_body]
fn new_rw_lock<T>(value: T) -> RwLock<T> {
    RwLock::new(value)
}

/// `made` is the `RwLock` that was made of `value`.
pub closed spec fn is_rw_lock_of<T>(value: T, made: RwLock<T>) -> bool {
    call_ensures(new_rw_lock::<T>, (value,), made)
}

/// The constructor of `Wrapping`: the wrapping integer of that value.
#[verifier::external_body]
fn new_wrapping<T>(value: T) -> Wrapping<T> {
    Wrapping(value)
}

/// `made` is the `Wrapping` that was made of `value`.
pub closed spec fn is_wrapping_of<T>(value: T, made: Wrapping<T>) -> bool {
    call_ensures(new_wrapping::<T>, (value,), made)
}

/// `AtomicBool::new`: an atomic that holds the value.
#[verifier::external_body]
fn new_atomic_bool(value: bool) -> AtomicBool {
    AtomicBool::new(value)
}

/// `made` is the `AtomicBool` that was made of `value`.
pub closed spec fn is_atomic_bool_of(value: bool, made: AtomicBool) -> bool {
    call_ensures(new_atomic_bool, (value,), made)
}

/// `AtomicI8::new`: an atomic that holds the value.
#[verifier::external_body]
fn new_atomic_i8(value: i8) -> AtomicI8 {
    AtomicI8::new(value)
}

/// `made` is the `AtomicI8` that was made of `value`.
pub closed spec fn is_atomic_i8_of(value: i8, made: AtomicI8) -> bool {
    call_ensures(new_atomic_i8, (value,), made)
}

/// `AtomicI16::new`: an atomic that holds the value.
#[verifier::external_body]
fn new_atomic_i16(value: i16) -> AtomicI16 {
    AtomicI16::new(value)
}

/// `made` is the `AtomicI16` that was made of `value`.
pub closed spec fn is_atomic_i16_of(value: i16, made: AtomicI16) -> bool {
    call_ensures(new_atomic_i16, (value,), made)
}

/// `AtomicI32::new`: an atomic that holds the value.
#[verifier::external_body]
fn new_atomic_i32(value: i32) -> AtomicI32 {
    AtomicI32::new(value)
}

/// `made` is the `AtomicI32` that was made of `value`.
pub closed spec fn is_atomic_i32_of(value: i32, made: AtomicI32) -> bool {
    call_ensures(new_atomic_i32, (value,), made)
}

/// `AtomicI64::new`: an atomic that holds the value.
#[verifier::external_body]
fn new_atomic_i64(value: i64) -> AtomicI64 {
    AtomicI64::new(value)
}

/// `made` is the `AtomicI64` that was made of `value`.
pub closed spec fn is_atomic_i64_of(value: i64, made: AtomicI64) -> bool {
    call_ensures(new_atomic_i64, (value,), made)
}

/// `AtomicIsize::new`: an atomic that holds the value.
#[verifier::external_body]
fn new_atomic_isize(value: isize) -> AtomicIsize {
    AtomicIsize::new(value)
}

/// `made` is the `AtomicIsize` that was made of `value`.
pub closed spec fn is_atomic_isize_of(value: isize, made: AtomicIsize) -> bool {
    call_ensures(new_atomic_isize, (value,), made)
}

/// `AtomicU8::new`: an atomic that holds the value.
#[verifier::external_body]
fn new_atomic_u8(value: u8) -> AtomicU8 {
    AtomicU8::new(value)
}

/// `made` is the `AtomicU8` that was made of `value`.
pub closed spec fn is_atomic_u8_of(value: u8, made: AtomicU8) -> bool {
    call_ensures(new_atomic_u8, (value,), made)
}

/// `AtomicU16::new`: an atomic that holds the value.
#[verifier::external_body]
fn new_atomic_u16(value: u16) -> AtomicU16 {
    AtomicU16::new(value)
}

/// `made` is the `AtomicU16` that was made of `value`.
pub closed spec fn is_atomic_u16_of(value: u16, made: AtomicU16) -> bool {
    call_ensures(new_atomic_u16, (value,), made)
}

/// `AtomicU32::new`: an atomic that holds the value.
#[verifier::external_body]
fn new_atomic_u32(value: u32) -> AtomicU32 {
    AtomicU32::new(value)
}

/// `made` is the `AtomicU32` that was made of `value`.
pub closed spec fn is_atomic_u32_of(value: u32, made: AtomicU32) -> bool {
    call_ensures(new_atomic_u32, (value,), made)
}

/// `AtomicU64::new`: an atomic that holds the value.
#[verifier::external_body]
fn new_atomic_u64(value: u64) -> AtomicU64 {
    AtomicU64::new(value)
}

/// `made` is the `AtomicU64` that was made of `value`.
pub closed spec fn is_atomic_u64_of(value: u64, made: AtomicU64) -> bool {
    call_ensures(new_atomic_u64, (value,), made)
}

/// `AtomicUsize::new`: an atomic that holds the value.
#[verifier::external_body]
fn new_atomic_usize(value: usize) -> AtomicUsize {
    AtomicUsize::new(value)
}

/// `made` is the `AtomicUsize` that was made of `value`.
pub closed spec fn is_atomic_usize_of(value: usize, made: AtomicUsize) -> bool {
    call_ensures(new_atomic_usize, (value,), made)
}

/// `r` holds what was made of the value of `inner`, or fails with the
/// failure of `inner`.
pub open spec fn wraps<T, W>(inner: Result<T, Error>, r: Result<W, Error>, made_of: spec_fn(T, W) -> bool) -> bool {
    match inner {
        Ok(value) => r matches Ok(made) && made_of(value, made),
        Err(e) => r == Err::<W, Error>(e),
    }
}

/// `r` is what wrapping the conversion of `field` to a `T` returns: the
/// wrapper made of the value that the field converts to, or the failure of
/// that conversion.
pub open spec fn converts_wrapped<T: FromMultipartField, W>(
    field: &MultipartField,
    form: &MultipartForm,
    r: Result<W, Error>,
    made_of: spec_fn(T, W) -> bool,
) -> bool {
    exists|inner: Result<T, Error>| #[trigger]
        call_ensures(T::from_field, (field, form), inner) && wraps(inner, r, made_of)
}

/// `r` is what wrapping the value that `text` reads as returns: the wrapper
/// made of that value, or the failure to read it.
pub open spec fn reads_wrapped<T: crate::text::FromText, W>(
    text: Seq<char>,
    r: Result<W, Error>,
    made_of: spec_fn(T, W) -> bool,
) -> bool {
    exists|inner: Result<T, Error>| #[trigger] reads_text(text, inner) && wraps(inner, r, made_of)
}

/// A marker converts from any field.
impl<T> FromMultipartField for PhantomData<T> {
    fn from_field(_field: &MultipartField, _form: &MultipartForm) -> (r: Result<PhantomData<T>, Error>)
        ensures
            r is Ok,
    {
        Ok(PhantomData)
    }
}

impl<T> FromMultipart for PhantomData<T> {
    fn from_multipart(multipart: &MultipartForm, ctx: FormContext<'_>) -> (r: Result<PhantomData<T>, Error>)
        ensures
            converts_named(multipart, ctx.name(), r),
    {
        from_named_field(multipart, ctx)
    }
}

impl<T: FromMultipartField> FromMultipartField for Cell<T> {
    fn from_field(field: &MultipartField, form: &MultipartForm) -> (r: Result<Cell<T>, Error>)
        ensures
            converts_wrapped::<T, Cell<T>>(field, form, r, |value: T, made: Cell<T>| is_cell_of(value, made)),
    {
        let inner = T::from_field(field, form);
        let r = match inner {
            Ok(value) => Ok(new_cell(value)),
            Err(e) => Err(e),
        };
        assert(wraps(inner, r, |value: T, made: Cell<T>| is_cell_of(value, made)));
        r
    }
}

impl<T: FromMultipartField> FromMultipart for Cell<T> {
    fn from_multipart(multipart: &MultipartForm, ctx: FormContext<'_>) -> (r: Result<Cell<T>, Error>)
        ensures
            converts_named(multipart, ctx.name(), r),
    {
        from_named_field(multipart, ctx)
    }
}

impl<T: FromMultipartField> FromMultipartField for RefCell<T> {
    fn from_field(field: &MultipartField, form: &MultipartForm) -> (r: Result<RefCell<T>, Error>)
        ensures
            converts_wrapped::<T, RefCell<T>>(field, form, r, |value: T, made: RefCell<T>| is_ref_cell_of(value, made)),
    {
        let inner = T::from_field(field, form);
        let r = match inner {
            Ok(value) => Ok(new_ref_cell(value)),
            Err(e) => Err(e),
        };
        assert(wraps(inner, r, |value: T, made: RefCell<T>| is_ref_cell_of(value, made)));
        r
    }
}

impl<T: FromMultipartField> FromMultipart for RefCell<T> {
    fn from_multipart(multipart: &MultipartForm, ctx: FormContext<'_>) -> (r: Result<RefCell<T>, Error>)
        ensures
            converts_named(multipart, ctx.name(), r),
    {
        from_named_field(multipart, ctx)
    }
}

impl<T: FromMultipartField> FromMultipartField for Mutex<T> {
    fn from_field(field: &MultipartField, form: &MultipartForm) -> (r: Result<Mutex<T>, Error>)
        ensures
            converts_wrapped::<T, Mutex<T>>(field, form, r, |value: T, made: Mutex<T>| is_mutex_of(value, made)),
    {
        let inner = T::from_field(field, form);
        let r = match inner {
            Ok(value) => Ok(new_mutex(value)),
            Err(e) => Err(e),
        };
        assert(wraps(inner, r, |value: T, made: Mutex<T>| is_mutex_of(value, made)));
        r
    }
}

impl<T: FromMultipartField> FromMultipart for Mutex<T> {
    fn from_multipart(multipart: &MultipartForm, ctx: FormContext<'_>) -> (r: Result<Mutex<T>, Error>)
        ensures
            converts_named(multipart, ctx.name(), r),
    {
        from_named_field(multipart, ctx)
    }
}

impl<T: FromMultipartField> FromMultipartField for RwLock<T> {
    fn from_field(field: &MultipartField, form: &MultipartForm) -> (r: Result<RwLock<T>, Error>)
        ensures
            converts_wrapped::<T, RwLock<T>>(field, form, r, |value: T, made: RwLock<T>| is_rw_lock_of(value, made)),
    {
        let inner = T::from_field(field, form);
        let r = match inner {
            Ok(value) => Ok(new_rw_lock(value)),
            Err(e) => Err(e),
        };
        assert(wraps(inner, r, |value: T, made: RwLock<T>| is_rw_lock_of(value, made)));
        r
    }
}

impl<T: FromMultipartField> FromMultipart for RwLock<T> {
    fn from_multipart(multipart: &MultipartForm, ctx: FormContext<'_>) -> (r: Result<RwLock<T>, Error>)
        ensures
            converts_named(multipart, ctx.name(), r),
    {
        from_named_field(multipart, ctx)
    }
}

impl<T: FromMultipartField> FromMultipartField for Wrapping<T> {
    fn from_field(field: &MultipartField, form: &MultipartForm) -> (r: Result<Wrapping<T>, Error>)
        ensures
            converts_wrapped::<T, Wrapping<T>>(field, form, r, |value: T, made: Wrapping<T>| is_wrapping_of(value, made)),
    {
        let inner = T::from_field(field, form);
        let r = match inner {
            Ok(value) => Ok(new_wrapping(value)),
            Err(e) => Err(e),
        };
        assert(wraps(inner, r, |value: T, made: Wrapping<T>| is_wrapping_of(value, made)));
        r
    }
}

impl<T: FromMultipartField> FromMultipart for Wrapping<T> {
    fn from_multipart(multipart: &MultipartForm, ctx: FormContext<'_>) -> (r: Result<Wrapping<T>, Error>)
        ensures
            converts_named(multipart, ctx.name(), r),
    {
        from_named_field(multipart, ctx)
    }
}

impl FromMultipartField for AtomicBool {
    fn from_field(field: &MultipartField, _form: &MultipartForm) -> (r: Result<AtomicBool, Error>)
        ensures
            reads_wrapped::<bool, AtomicBool>(field@.text(), r, |value: bool, made: AtomicBool| is_atomic_bool_of(value, made)),
    {
        let inner = field_from_text::<bool>(field);
        let r = match inner {
            Ok(value) => Ok(new_atomic_bool(value)),
            Err(e) => Err(e),
        };
        assert(wraps(inner, r, |value: bool, made: AtomicBool| is_atomic_bool_of(value, made)));
        r
    }
}

impl FromMultipart for AtomicBool {
    fn from_multipart(multipart: &MultipartForm, ctx: FormContext<'_>) -> (r: Result<AtomicBool, Error>)
        ensures
            converts_named(multipart, ctx.name(), r),
    {
        from_named_field(multipart, ctx)
    }
}

impl FromMultipartField for AtomicI8 {
    fn from_field(field: &MultipartField, _form: &MultipartForm) -> (r: Result<AtomicI8, Error>)
        ensures
            reads_wrapped::<i8, AtomicI8>(field@.text(), r, |value: i8, made: AtomicI8| is_atomic_i8_of(value, made)),
    {
        let inner = field_from_text::<i8>(field);
        let r = match inner {
            Ok(value) => Ok(new_atomic_i8(value)),
            Err(e) => Err(e),
        };
        assert(wraps(inner, r, |value: i8, made: AtomicI8| is_atomic_i8_of(value, made)));
        r
    }
}

impl FromMultipart for AtomicI8 {
    fn from_multipart(multipart: &MultipartForm, ctx: FormContext<'_>) -> (r: Result<AtomicI8, Error>)
        ensures
            converts_named(multipart, ctx.name(), r),
    {
        from_named_field(multipart, ctx)
    }
}

impl FromMultipartField for AtomicI16 {
    fn from_field(field: &MultipartField, _form: &MultipartForm) -> (r: Result<AtomicI16, Error>)
        ensures
            reads_wrapped::<i16, AtomicI16>(field@.text(), r, |value: i16, made: AtomicI16| is_atomic_i16_of(value, made)),
    {
        let inner = field_from_text::<i16>(field);
        let r = match inner {
            Ok(value) => Ok(new_atomic_i16(value)),
            Err(e) => Err(e),
        };
        assert(wraps(inner, r, |value: i16, made: AtomicI16| is_atomic_i16_of(value, made)));
        r
    }
}

impl FromMultipart for AtomicI16 {
    fn from_multipart(multipart: &MultipartForm, ctx: FormContext<'_>) -> (r: Result<AtomicI16, Error>)
        ensures
            converts_named(multipart, ctx.name(), r),
    {
        from_named_field(multipart, ctx)
    }
}

impl FromMultipartField for AtomicI32 {
    fn from_field(field: &MultipartField, _form: &MultipartForm) -> (r: Result<AtomicI32, Error>)
        ensures
            reads_wrapped::<i32, AtomicI32>(field@.text(), r, |value: i32, made: AtomicI32| is_atomic_i32_of(value, made)),
    {
        let inner = field_from_text::<i32>(field);
        let r = match inner {
            Ok(value) => Ok(new_atomic_i32(value)),
            Err(e) => Err(e),
        };
        assert(wraps(inner, r, |value: i32, made: AtomicI32| is_atomic_i32_of(value, made)));
        r
    }
}

impl FromMultipart for AtomicI32 {
    fn from_multipart(multipart: &MultipartForm, ctx: FormContext<'_>) -> (r: Result<AtomicI32, Error>)
        ensures
            converts_named(multipart, ctx.name(), r),
    {
        from_named_field(multipart, ctx)
    }
}

impl FromMultipartField for AtomicI64 {
    fn from_field(field: &MultipartField, _form: &MultipartForm) -> (r: Result<AtomicI64, Error>)
        ensures
            reads_wrapped::<i64, AtomicI64>(field@.text(), r, |value: i64, made: AtomicI64| is_atomic_i64_of(value, made)),
    {
        let inner = field_from_text::<i64>(field);
        let r = match inner {
            Ok(value) => Ok(new_atomic_i64(value)),
            Err(e) => Err(e),
        };
        assert(wraps(inner, r, |value: i64, made: AtomicI64| is_atomic_i64_of(value, made)));
        r
    }
}

impl FromMultipart for AtomicI64 {
    fn from_multipart(multipart: &MultipartForm, ctx: FormContext<'_>) -> (r: Result<AtomicI64, Error>)
        ensures
            converts_named(multipart, ctx.name(), r),
    {
        from_named_field(multipart, ctx)
    }
}

impl FromMultipartField for AtomicIsize {
    fn from_field(field: &MultipartField, _form: &MultipartForm) -> (r: Result<AtomicIsize, Error>)
        ensures
            reads_wrapped::<isize, AtomicIsize>(field@.text(), r, |value: isize, made: AtomicIsize| is_atomic_isize_of(value, made)),
    {
        let inner = field_from_text::<isize>(field);
        let r = match inner {
            Ok(value) => Ok(new_atomic_isize(value)),
            Err(e) => Err(e),
        };
        assert(wraps(inner, r, |value: isize, made: AtomicIsize| is_atomic_isize_of(value, made)));
        r
    }
}

impl FromMultipart for AtomicIsize {
    fn from_multipart(multipart: &MultipartForm, ctx: FormContext<'_>) -> (r: Result<AtomicIsize, Error>)
        ensures
            converts_named(multipart, ctx.name(), r),
    {
        from_named_field(multipart, ctx)
    }
}

impl FromMultipartField for AtomicU8 {
    fn from_field(field: &MultipartField, _form: &MultipartForm) -> (r: Result<AtomicU8, Error>)
        ensures
            reads_wrapped::<u8, AtomicU8>(field@.text(), r, |value: u8, made: AtomicU8| is_atomic_u8_of(value, made)),
    {
        let inner = field_from_text::<u8>(field);
        let r = match inner {
            Ok(value) => Ok(new_atomic_u8(value)),
            Err(e) => Err(e),
        };
        assert(wraps(inner, r, |value: u8, made: AtomicU8| is_atomic_u8_of(value, made)));
        r
    }
}

impl FromMultipart for AtomicU8 {
    fn from_multipart(multipart: &MultipartForm, ctx: FormContext<'_>) -> (r: Result<AtomicU8, Error>)
        ensures
            converts_named(multipart, ctx.name(), r),
    {
        from_named_field(multipart, ctx)
    }
}

impl FromMultipartField for AtomicU16 {
    fn from_field(field: &MultipartField, _form: &MultipartForm) -> (r: Result<AtomicU16, Error>)
        ensures
            reads_wrapped::<u16, AtomicU16>(field@.text(), r, |value: u16, made: AtomicU16| is_atomic_u16_of(value, made)),
    {
        let inner = field_from_text::<u16>(field);
        let r = match inner {
            Ok(value) => Ok(new_atomic_u16(value)),
            Err(e) => Err(e),
        };
        assert(wraps(inner, r, |value: u16, made: AtomicU16| is_atomic_u16_of(value, made)));
        r
    }
}

impl FromMultipart for AtomicU16 {
    fn from_multipart(multipart: &MultipartForm, ctx: FormContext<'_>) -> (r: Result<AtomicU16, Error>)
        ensures
            converts_named(multipart, ctx.name(), r),
    {
        from_named_field(multipart, ctx)
    }
}

impl FromMultipartField for AtomicU32 {
    fn from_field(field: &MultipartField, _form: &MultipartForm) -> (r: Result<AtomicU32, Error>)
        ensures
            reads_wrapped::<u32, AtomicU32>(field@.text(), r, |value: u32, made: AtomicU32| is_atomic_u32_of(value, made)),
    {
        let inner = field_from_text::<u32>(field);
        let r = match inner {
            Ok(value) => Ok(new_atomic_u32(value)),
            Err(e) => Err(e),
        };
        assert(wraps(inner, r, |value: u32, made: AtomicU32| is_atomic_u32_of(value, made)));
        r
    }
}

impl FromMultipart for AtomicU32 {
    fn from_multipart(multipart: &MultipartForm, ctx: FormContext<'_>) -> (r: Result<AtomicU32, Error>)
        ensures
            converts_named(multipart, ctx.name(), r),
    {
        from_named_field(multipart, ctx)
    }
}

impl FromMultipartField for AtomicU64 {
    fn from_field(field: &MultipartField, _form: &MultipartForm) -> (r: Result<AtomicU64, Error>)
        ensures
            reads_wrapped::<u64, AtomicU64>(field@.text(), r, |value: u64, made: AtomicU64| is_atomic_u64_of(value, made)),
    {
        let inner = field_from_text::<u64>(field);
        let r = match inner {
            Ok(value) => Ok(new_atomic_u64(value)),
            Err(e) => Err(e),
        };
        assert(wraps(inner, r, |value: u64, made: AtomicU64| is_atomic_u64_of(value, made)));
        r
    }
}

impl FromMultipart for AtomicU64 {
    fn from_multipart(multipart: &MultipartForm, ctx: FormContext<'_>) -> (r: Result<AtomicU64, Error>)
        ensures
            converts_named(multipart, ctx.name(), r),
    {
        from_named_field(multipart, ctx)
    }
}

impl FromMultipartField for AtomicUsize {
    fn from_field(field: &MultipartField, _form: &MultipartForm) -> (r: Result<AtomicUsize, Error>)
        ensures
            reads_wrapped::<usize, AtomicUsize>(field@.text(), r, |value: usize, made: AtomicUsize| is_atomic_usize_of(value, made)),
    {
        let inner = field_from_text::<usize>(field);
        let r = match inner {
            Ok(value) => Ok(new_atomic_usize(value)),
            Err(e) => Err(e),
        };
        assert(wraps(inner, r, |value: usize, made: AtomicUsize| is_atomic_usize_of(value, made)));
        r
    }
}

impl FromMultipart for AtomicUsize {
    fn from_multipart(multipart: &MultipartForm, ctx: FormContext<'_>) -> (r: Result<AtomicUsize, Error>)
        ensures
            converts_named(multipart, ctx.name(), r),
    {
        from_named_field(multipart, ctx)
    }
}

} // verus!
