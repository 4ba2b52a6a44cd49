//! The record conversion capability of maps that keep their keys in order.
use crate::error::Error;
use crate::from_multipart::{FormContext, FromMultipart};
use crate::from_multipart_field::FromMultipartField;
use crate::maps::{collect_entries, converts_map, KeyedStore};
use crate::multipart_form::MultipartForm;
use crate::text::FromText;
use std::collections::BTreeMap;
use vstd::prelude::*;
use vstd::laws_cmp::obeys_cmp;

verus! {

impl<K: Ord, V> KeyedStore<K, V> for BTreeMap<K, V> {
    open spec fn contents(&self) -> Map<K, V> {
        self@
    }

    open spec fn lawful() -> bool {
        obeys_cmp::<K>()
    }

    fn empty() -> (store: Self) {
        BTreeMap::new()
    }

    fn put(&mut self, key: K, value: V) {
        self.insert(key, value);
    }
}

/// An ordered map holds one entry for every named field of the form: the
/// key read from the field's name, the value converted from the field. The
/// context is not used.
impl<K: FromText + Ord, V: FromMultipartField> FromMultipart for BTreeMap<K, V> {
    fn from_multipart(multipart: &MultipartForm, _ctx: FormContext<'_>) -> (r: Result<BTreeMap<K, V>, Error>)
        ensures
            converts_map::<K, V, BTreeMap<K, V>>(multipart, r),
    {
        collect_entries::<K, V, BTreeMap<K, V>>(multipart)
    }
}

} // verus!
