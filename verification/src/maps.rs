//! The record conversion capability of keyed maps: every named field is one
//! entry, keyed by its name.
use crate::containers::{converts_pair, pair_from_field};
use crate::error::Error;
use crate::from_multipart::{FormContext, FromMultipart};
use crate::from_multipart_field::FromMultipartField;
use crate::multipart_form::MultipartForm;
use crate::text::FromText;
use std::collections::HashMap;
use std::hash::Hash;
use vstd::prelude::*;
use vstd::std_specs::hash::{builds_valid_hashers, obeys_key_model};

verus! {

/// `entries` holds, for each named field among the first `count` fields of
/// `form`, in order, the pair that the field converts to.
pub open spec fn entries_upto<K: FromText, V: FromMultipartField>(
    form: &MultipartForm,
    count: int,
    entries: Seq<(K, V)>,
) -> bool
    decreases count,
{
    if count <= 0 {
        entries.len() == 0
    } else if form@[count - 1].name is None {
        entries_upto(form, count - 1, entries)
    } else {
        &&& entries.len() > 0
        &&& converts_pair(&form.fields_spec()[count - 1], form, Ok::<(K, V), Error>(entries.last()))
        &&& entries_upto(form, count - 1, entries.drop_last())
    }
}

/// The map that entries make when they are inserted in order: of two
/// entries with one key the later stays.
pub open spec fn map_of<K, V>(entries: Seq<(K, V)>) -> Map<K, V>
    decreases entries.len(),
{
    if entries.len() == 0 {
        Map::empty()
    } else {
        map_of(entries.drop_last()).insert(entries.last().0, entries.last().1)
    }
}

/// The conversion of a form to entries fails with `e`: the named fields
/// before some named field convert to pairs, and that field fails with `e`,
/// be it for its name, which does not read as a key, or for its value.
pub open spec fn entries_fail<K: FromText, V: FromMultipartField>(form: &MultipartForm, e: Error) -> bool {
    exists|at: int, entries: Seq<(K, V)>|
        {
            &&& 0 <= at < form@.len()
            &&& form@[at].name is Some
            &&& #[trigger] entries_upto(form, at, entries)
            &&& converts_pair(&form.fields_spec()[at], form, Err::<(K, V), Error>(e))
        }
}

/// `entries` holds the pair of every named field of `form`, in order.
pub open spec fn entries_of<K: FromText, V: FromMultipartField>(
    form: &MultipartForm,
    entries: Seq<(K, V)>,
) -> bool {
    entries_upto(form, form@.len() as int, entries)
}

/// A map that entries can be put into, one after the other.
pub trait KeyedStore<K, V>: Sized {
    /// What the store holds.
    spec fn contents(&self) -> Map<K, V>;

    /// Whether the key type behaves as the store needs it to.
    spec fn lawful() -> bool;

    /// A store that holds nothing.
    fn empty() -> (store: Self)
        ensures
            Self::lawful() ==> store.contents() == Map::<K, V>::empty(),
    ;

    /// Puts an entry in, in place of any entry of the same key.
    fn put(&mut self, key: K, value: V)
        ensures
            Self::lawful() ==> final(self).contents() == old(self).contents().insert(key, value),
    ;
}

/// What the conversion of a form to a keyed store returns: the map of the
/// entries of all named fields, or the failure of the first named field that
/// does not convert to an entry.
pub open spec fn converts_map<K: FromText, V: FromMultipartField, M: KeyedStore<K, V>>(
    form: &MultipartForm,
    r: Result<M, Error>,
) -> bool {
    match r {
        Ok(store) => exists|entries: Seq<(K, V)>| #[trigger]
            entries_of(form, entries) && (M::lawful() ==> store.contents() == map_of(entries)),
        Err(e) => entries_fail::<K, V>(form, e),
    }
}

/// Converts every named field of the form to an entry and puts the entries
/// into a store, in the order of the form. Fields without a name are passed
/// over; the first field that does not convert fails the whole.
pub fn collect_entries<K: FromText, V: FromMultipartField, M: KeyedStore<K, V>>(form: &MultipartForm) -> (r:
    Result<M, Error>)
    ensures
        converts_map::<K, V, M>(form, r),
{
    let mut store = M::empty();
    let ghost mut entries: Seq<(K, V)> = Seq::empty();
    let mut i: usize = 0;
    while i < form.len()
        invariant
            i <= form@.len(),
            entries_upto(form, i as int, entries),
            M::lawful() ==> store.contents() == map_of(entries),
        decreases form@.len() - i,
    {
        let field = form.get(i).unwrap();
        if field.name().is_some() {
            match pair_from_field::<K, V>(field, form) {
                Ok((key, value)) => {
                    proof {
                        let longer = entries.push((key, value));
                        assert(longer.drop_last() == entries);
                        entries = longer;
                    }
                    store.put(key, value);
                },
                Err(e) => {
                    return Err(e);
                },
            }
        }
        i += 1;
    }
    assert(entries_of(form, entries));
    Ok(store)
}

impl<K: Hash + Eq, V> KeyedStore<K, V> for HashMap<K, V> {
    open spec fn contents(&self) -> Map<K, V> {
        self@
    }

    open spec fn lawful() -> bool {
        obeys_key_model::<K>()
    }

    fn empty() -> (store: Self) {
        HashMap::new()
    }

    fn put(&mut self, key: K, value: V) {
        broadcast use vstd::std_specs::hash::group_hash_axioms;

        self.insert(key, value);
    }
}

/// A hash map holds one entry for every named field of the form: the key
/// read from the field's name, the value converted from the field. The
/// context is not used.
impl<K: FromText + Hash + Eq, V: FromMultipartField> FromMultipart for HashMap<K, V> {
    fn from_multipart(multipart: &MultipartForm, _ctx: FormContext<'_>) -> (r: Result<HashMap<K, V>, Error>)
        ensures
            converts_map::<K, V, HashMap<K, V>>(multipart, r),
    {
        collect_entries::<K, V, HashMap<K, V>>(multipart)
    }
}

} // verus!
