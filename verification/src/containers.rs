//! Both conversion capabilities for the types that wrap or hold others:
//! outcomes, pairs, queues, sets and owning pointers.
use crate::error::Error;
use crate::from_multipart::{converts_named, from_named_field, FormContext, FromMultipart};
use crate::from_multipart_field::{collect_fields, collects, scans, successes, FromMultipartField};
use crate::from_multipart_field::reads_text;
use crate::multipart_form::{MultipartField, MultipartForm};
use crate::text::FromText;
use std::collections::{HashSet, VecDeque};
use std::hash::Hash;
use std::rc::Rc;
use std::sync::Arc;
use vstd::prelude::*;
use vstd::std_specs::hash::obeys_key_model;

verus! {

/// An outcome never fails to convert: it holds what the inner conversion
/// returned, be it a value or a failure.
impl<T: FromMultipartField> FromMultipartField for Result<T, Error> {
    fn from_field(field: &MultipartField, form: &MultipartForm) -> (r: Result<Result<T, Error>, Error>)
        ensures
            r matches Ok(inner) && call_ensures(T::from_field, (field, form), inner),
    {
        Ok(T::from_field(field, form))
    }
}

impl<T: FromMultipartField> FromMultipart for Result<T, Error> {
    fn from_multipart(multipart: &MultipartForm, ctx: FormContext<'_>) -> (r: Result<Result<T, Error>, Error>)
        ensures
            converts_named(multipart, ctx.name(), r),
    {
        from_named_field(multipart, ctx)
    }
}

/// What the second half of a pair's conversion returns, the key being read:
/// the pair where the value converts, else the value's failure.
pub open spec fn pairs_with<K, V>(key: K, value: Result<V, Error>, r: Result<(K, V), Error>) -> bool {
    match value {
        Ok(v) => r == Ok::<(K, V), Error>((key, v)),
        Err(e) => r == Err::<(K, V), Error>(e),
    }
}

/// `r` is what the conversion of `field` to a pair returns: `MissingName`
/// for a field without a name; the key's failure where the name does not
/// read as a key; else the value's failure, or the pair.
pub open spec fn converts_pair<K: FromText, V: FromMultipartField>(
    field: &MultipartField,
    form: &MultipartForm,
    r: Result<(K, V), Error>,
) -> bool {
    match field@.name {
        None => r matches Err(Error::MissingName),
        Some(name) => exists|key: Result<K, Error>| #[trigger]
            reads_text(name, key) && match key {
                Err(e) => r == Err::<(K, V), Error>(e),
                Ok(k) => exists|value: Result<V, Error>| #[trigger]
                    call_ensures(V::from_field, (field, form), value) && pairs_with(k, value, r),
            },
    }
}

/// Converts a field to a pair: the key read from the field's name, the value
/// converted from the field.
pub fn pair_from_field<K: FromText, V: FromMultipartField>(field: &MultipartField, form: &MultipartForm) -> (r:
    Result<(K, V), Error>)
    ensures
        converts_pair(field, form, r),
{
    let name = match field.name() {
        Some(name) => name,
        None => {
            return Err(Error::MissingName);
        },
    };
    let key = K::from_text(name);
    assert(reads_text(field@.name->0, key));
    match key {
        Err(e) => Err(e),
        Ok(k) => {
            let value = V::from_field(field, form);
            match value {
                Ok(v) => {
                    let r = Ok((k, v));
                    r
                },
                Err(e) => {
                    let r = Err(e);
                    r
                },
            }
        },
    }
}

/// A pair converts from one field: its key from the field's name, its value
/// from the field.
impl<K: FromText, V: FromMultipartField> FromMultipartField for (K, V) {
    fn from_field(field: &MultipartField, form: &MultipartForm) -> (r: Result<(K, V), Error>)
        ensures
            converts_pair(field, form, r),
    {
        pair_from_field(field, form)
    }
}

impl<K: FromText, V: FromMultipartField> FromMultipart for (K, V) {
    fn from_multipart(multipart: &MultipartForm, ctx: FormContext<'_>) -> (r: Result<(K, V), Error>)
        ensures
            converts_named(multipart, ctx.name(), r),
    {
        from_named_field(multipart, ctx)
    }
}

/// Converts every field of the form and keeps the successes in a queue, in
/// the order of the form.
pub fn collect_queue<T: FromMultipartField>(form: &MultipartForm) -> (values: VecDeque<T>)
    ensures
        collects(form, values@),
{
    let mut list: Vec<T> = collect_fields(form);
    let ghost all = list@;
    let mut reversed: Vec<T> = Vec::new();
    while list.len() > 0
        invariant
            list@.len() + reversed@.len() == all.len(),
            forall|i: int| 0 <= i < list@.len() ==> list@[i] == all[i],
            forall|j: int| 0 <= j < reversed@.len() ==> #[trigger] reversed@[j] == all[all.len() - 1 - j],
        decreases list@.len(),
    {
        let last = list.pop().unwrap();
        reversed.push(last);
    }
    let mut values: VecDeque<T> = VecDeque::new();
    while reversed.len() > 0
        invariant
            reversed@.len() + values@.len() == all.len(),
            forall|j: int| 0 <= j < reversed@.len() ==> #[trigger] reversed@[j] == all[all.len() - 1 - j],
            forall|i: int| 0 <= i < values@.len() ==> values@[i] == all[i],
        decreases reversed@.len(),
    {
        let next = reversed.pop().unwrap();
        values.push_back(next);
    }
    assert(values@ =~= all);
    values
}

/// A queue holds every field of the form that converts to its element type,
/// in the order of the form.
impl<T: FromMultipartField> FromMultipartField for VecDeque<T> {
    fn from_field(_field: &MultipartField, form: &MultipartForm) -> (r: Result<VecDeque<T>, Error>)
        ensures
            r matches Ok(values) && collects(form, values@),
    {
        Ok(collect_queue(form))
    }
}

impl<T: FromMultipartField> FromMultipart for VecDeque<T> {
    fn from_multipart(multipart: &MultipartForm, _ctx: FormContext<'_>) -> (r: Result<VecDeque<T>, Error>)
        ensures
            r matches Ok(values) && collects(multipart, values@),
    {
        Ok(collect_queue(multipart))
    }
}

/// `values` is the set of the fields of `form` that convert to a `T`,
/// converted.
pub open spec fn collects_set<T: FromMultipartField>(form: &MultipartForm, values: Set<T>) -> bool {
    exists|outcomes: Seq<Result<T, Error>>| #[trigger]
        scans(form, outcomes) && values == successes(outcomes).to_set()
}

/// Converts every field of the form and keeps the successes in a set: equal
/// values once.
pub fn collect_set<T: FromMultipartField + Hash + Eq>(form: &MultipartForm) -> (values: HashSet<T>)
    ensures
        obeys_key_model::<T>() ==> collects_set(form, values@),
{
    let mut list: Vec<T> = collect_fields(form);
    let ghost all = list@;
    let mut values: HashSet<T> = HashSet::new();
    while list.len() > 0
        invariant
            list@.len() <= all.len(),
            forall|i: int| 0 <= i < list@.len() ==> list@[i] == all[i],
            obeys_key_model::<T>() ==> values@ == all.skip(list@.len() as int).to_set(),
        decreases list@.len(),
    {
        let ghost before = list@.len();
        let last = list.pop().unwrap();
        values.insert(last);
        proof {
            let shorter = all.skip(before as int);
            let longer = all.skip(before - 1);
            assert(longer.to_set() =~= shorter.to_set().insert(last)) by {
                assert forall|x: T| longer.to_set().contains(x) <==> shorter.to_set().insert(last).contains(
                    x,
                ) by {
                    if longer.contains(x) {
                        let k = choose|k: int| 0 <= k < longer.len() && longer[k] == x;
                        if k > 0 {
                            assert(shorter[k - 1] == x);
                        }
                    }
                    if shorter.contains(x) {
                        let k = choose|k: int| 0 <= k < shorter.len() && shorter[k] == x;
                        assert(longer[k + 1] == x);
                    }
                    if x == last {
                        assert(longer[0] == x);
                    }
                }
            }
        }
    }
    assert(all.skip(0) == all);
    values
}

/// A set holds every field of the form that converts to its element type.
impl<T: FromMultipartField + Hash + Eq> FromMultipartField for HashSet<T> {
    fn from_field(_field: &MultipartField, form: &MultipartForm) -> (r: Result<HashSet<T>, Error>)
        ensures
            r matches Ok(values) && (obeys_key_model::<T>() ==> collects_set(form, values@)),
    {
        Ok(collect_set(form))
    }
}

impl<T: FromMultipartField + Hash + Eq> FromMultipart for HashSet<T> {
    fn from_multipart(multipart: &MultipartForm, _ctx: FormContext<'_>) -> (r: Result<HashSet<T>, Error>)
        ensures
            r matches Ok(values) && (obeys_key_model::<T>() ==> collects_set(multipart, values@)),
    {
        Ok(collect_set(multipart))
    }
}

/// The unit value converts from any field.
impl FromMultipartField for () {
    fn from_field(_field: &MultipartField, _form: &MultipartForm) -> (r: Result<(), Error>)
        ensures
            r is Ok,
    {
        Ok(())
    }
}

impl FromMultipart for () {
    fn from_multipart(multipart: &MultipartForm, ctx: FormContext<'_>) -> (r: Result<(), Error>)
        ensures
            converts_named(multipart, ctx.name(), r),
    {
        from_named_field(multipart, ctx)
    }
}

/// `r` is `inner` with its value, if it has one, behind a box.
pub open spec fn boxes<T>(inner: Result<T, Error>, r: Result<Box<T>, Error>) -> bool {
    match inner {
        Ok(value) => r matches Ok(boxed) && *boxed == value,
        Err(e) => r == Err::<Box<T>, Error>(e),
    }
}

/// A box converts as what it holds does.
impl<T: FromMultipartField> FromMultipartField for Box<T> {
    fn from_field(field: &MultipartField, form: &MultipartForm) -> (r: Result<Box<T>, Error>)
        ensures
            exists|inner: Result<T, Error>| #[trigger]
                call_ensures(T::from_field, (field, form), inner) && boxes(inner, r),
    {
        let inner = T::from_field(field, form);
        let r = match inner {
            Ok(value) => Ok(Box::new(value)),
            Err(e) => Err(e),
        };
        r
    }
}

impl<T: FromMultipartField> FromMultipart for Box<T> {
    fn from_multipart(multipart: &MultipartForm, ctx: FormContext<'_>) -> (r: Result<Box<T>, Error>)
        ensures
            converts_named(multipart, ctx.name(), r),
    {
        from_named_field(multipart, ctx)
    }
}

/// `r` is `inner` with its value, if it has one, behind a counted pointer.
pub open spec fn shares<T>(inner: Result<T, Error>, r: Result<Rc<T>, Error>) -> bool {
    match inner {
        Ok(value) => r matches Ok(shared) && *shared == value,
        Err(e) => r == Err::<Rc<T>, Error>(e),
    }
}

/// A counted pointer converts as what it points to does.
impl<T: FromMultipartField> FromMultipartField for Rc<T> {
    fn from_field(field: &MultipartField, form: &MultipartForm) -> (r: Result<Rc<T>, Error>)
        ensures
            exists|inner: Result<T, Error>| #[trigger]
                call_ensures(T::from_field, (field, form), inner) && shares(inner, r),
    {
        let inner = T::from_field(field, form);
        let r = match inner {
            Ok(value) => Ok(Rc::new(value)),
            Err(e) => Err(e),
        };
        r
    }
}

impl<T: FromMultipartField> FromMultipart for Rc<T> {
    fn from_multipart(multipart: &MultipartForm, ctx: FormContext<'_>) -> (r: Result<Rc<T>, Error>)
        ensures
            converts_named(multipart, ctx.name(), r),
    {
        from_named_field(multipart, ctx)
    }
}

/// `r` is `inner` with its value, if it has one, behind a pointer that
/// threads can share.
pub open spec fn shares_across<T>(inner: Result<T, Error>, r: Result<Arc<T>, Error>) -> bool {
    match inner {
        Ok(value) => r matches Ok(shared) && *shared == value,
        Err(e) => r == Err::<Arc<T>, Error>(e),
    }
}

/// A pointer that threads can share converts as what it points to does.
impl<T: FromMultipartField> FromMultipartField for Arc<T> {
    fn from_field(field: &MultipartField, form: &MultipartForm) -> (r: Result<Arc<T>, Error>)
        ensures
            exists|inner: Result<T, Error>| #[trigger]
                call_ensures(T::from_field, (field, form), inner) && shares_across(inner, r),
    {
        let inner = T::from_field(field, form);
        let r = match inner {
            Ok(value) => Ok(Arc::new(value)),
            Err(e) => Err(e),
        };
        r
    }
}

impl<T: FromMultipartField> FromMultipart for Arc<T> {
    fn from_multipart(multipart: &MultipartForm, ctx: FormContext<'_>) -> (r: Result<Arc<T>, Error>)
        ensures
            converts_named(multipart, ctx.name(), r),
    {
        from_named_field(multipart, ctx)
    }
}

} // verus!
