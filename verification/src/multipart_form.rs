//! The field store: the buffered fields of one form, in arrival order.
use crate::codec::{decode_label, label_is_known, content_type_charset};
use crate::codec::{charset_param, decoded_as, label_known};
use http::HeaderMap;
use vstd::prelude::*;

verus! {

/// The header map of one field, carried through unread.
#[verifier::external_type_specification]
#[verifier::external_body]
#[verifier::reject_recursive_types(T)]
pub struct ExHeaderMap<T>(http::HeaderMap<T>);

/// The value type of a field's header map.
#[verifier::external_type_specification]
#[verifier::external_body]
pub struct ExHeaderValue(http::HeaderValue);

/// `Clone::clone` of `http::HeaderMap`, for a map of header values: the copy
/// holds the same headers.
#[verifier::external_body]
pub(crate) fn clone_headers(map: &HeaderMap) -> (copy: HeaderMap)
    ensures
        copy == *map,
{
    map.clone()
}

/// The most bytes a field may hold: decoding reserves a small multiple of the
/// content's length, which has to fit the machine's address range.
pub const MAX_FIELD_BYTES: usize = usize::MAX / 8;

/// The label of the encoding that is used where a field names none that is
/// known.
pub open spec fn fallback_label() -> Seq<char> {
    "utf-8"@
}

/// What one field holds, as mathematical values.
pub struct FieldView {
    pub index: nat,
    pub name: Option<Seq<char>>,
    pub file_name: Option<Seq<char>>,
    pub content_type: Option<Seq<char>>,
    pub headers: HeaderMap,
    pub bytes: Seq<u8>,
}

impl FieldView {
    /// The label under which the content is decoded: the `charset` parameter
    /// of the content type where it has one, else `default_encoding`; where
    /// that is no label of an encoding, the fallback.
    pub open spec fn encoding_label(self, default_encoding: Seq<char>) -> Seq<char> {
        let asked = match self.content_type {
            Some(content_type) => match charset_param(content_type) {
                Some(charset) => charset,
                None => default_encoding,
            },
            None => default_encoding,
        };
        if label_known(asked) {
            asked
        } else {
            fallback_label()
        }
    }

    /// The content as text, decoded under `encoding_label(default_encoding)`.
    pub open spec fn text_with_charset(self, default_encoding: Seq<char>) -> Seq<char> {
        decoded_as(self.encoding_label(default_encoding), self.bytes)
    }

    /// The content as text, UTF-8 where the field names no other encoding.
    pub open spec fn text(self) -> Seq<char> {
        self.text_with_charset(fallback_label())
    }

    /// Whether the field bears the given name.
    pub open spec fn is_named(self, name: Seq<char>) -> bool {
        self.name == Some(name)
    }
}

/// What the byte-stream parser yields for one field, fully read.
#[derive(Debug)]
pub struct FieldParts {
    pub name: Option<String>,
    pub file_name: Option<String>,
    pub content_type: Option<String>,
    pub headers: HeaderMap,
    pub bytes: Vec<u8>,
}

/// The text of an optional string.
pub open spec fn opt_text(value: Option<String>) -> Option<Seq<char>> {
    match value {
        Some(s) => Some(s@),
        None => None,
    }
}

/// The text of an optional string slice.
pub open spec fn opt_str_text(value: Option<&str>) -> Option<Seq<char>> {
    match value {
        Some(s) => Some(s@),
        None => None,
    }
}

impl FieldParts {
    /// The field that these parts make at position `index`.
    pub open spec fn at(self, index: nat) -> FieldView {
        FieldView {
            index,
            name: opt_text(self.name),
            file_name: opt_text(self.file_name),
            content_type: opt_text(self.content_type),
            headers: self.headers,
            bytes: self.bytes@,
        }
    }
}

/// A field in a multipart form.
#[derive(Debug)]
pub struct MultipartField {
    name: Option<String>,
    file_name: Option<String>,
    content_type: Option<String>,
    headers: HeaderMap,
    bytes: Vec<u8>,
    index: usize,
}

impl View for MultipartField {
    type V = FieldView;

    closed spec fn view(&self) -> FieldView {
        FieldView {
            index: self.index as nat,
            name: opt_text(self.name),
            file_name: opt_text(self.file_name),
            content_type: opt_text(self.content_type),
            headers: self.headers,
            bytes: self.bytes@,
        }
    }
}

/// A copy of the bytes.
pub(crate) fn copy_bytes(bytes: &Vec<u8>) -> (copy: Vec<u8>)
    ensures
        copy@ == bytes@,
{
    let mut copy: Vec<u8> = Vec::new();
    let mut i: usize = 0;
    while i < bytes.len()
        invariant
            i <= bytes@.len(),
            copy@ == bytes@.take(i as int),
        decreases bytes@.len() - i,
    {
        copy.push(bytes[i]);
        i += 1;
    }
    copy
}

/// A copy of an optional string.
fn copy_opt(value: &Option<String>) -> (copy: Option<String>)
    ensures
        opt_text(copy) == opt_text(*value),
{
    match value {
        Some(s) => Some(s.clone()),
        None => None,
    }
}

impl Clone for FieldParts {
    fn clone(&self) -> (copy: Self)
        ensures
            forall|index: nat| copy.at(index) == self.at(index),
    {
        FieldParts {
            name: copy_opt(&self.name),
            file_name: copy_opt(&self.file_name),
            content_type: copy_opt(&self.content_type),
            headers: clone_headers(&self.headers),
            bytes: copy_bytes(&self.bytes),
        }
    }
}

impl Clone for MultipartField {
    fn clone(&self) -> (copy: Self)
        ensures
            copy@ == self@,
    {
        proof {
            use_type_invariant(self);
        }
        MultipartField {
            name: copy_opt(&self.name),
            file_name: copy_opt(&self.file_name),
            content_type: copy_opt(&self.content_type),
            headers: clone_headers(&self.headers),
            bytes: copy_bytes(&self.bytes),
            index: self.index,
        }
    }
}

impl Clone for MultipartForm {
    fn clone(&self) -> (copy: Self)
        ensures
            copy@ == self@,
    {
        proof {
            use_type_invariant(self);
        }
        let mut fields: Vec<MultipartField> = Vec::new();
        let mut i: usize = 0;
        while i < self.fields.len()
            invariant
                i <= self.fields@.len(),
                fields@.len() == i,
                forall|j: int| 0 <= j < i ==> (#[trigger] fields@[j])@ == self.fields@[j]@,
                self.wf(),
            decreases self.fields@.len() - i,
        {
            fields.push(self.fields[i].clone());
            i += 1;
        }
        let copy = MultipartForm { fields };
        copy
    }
}

fn opt_as_str(value: &Option<String>) -> (r: Option<&str>)
    ensures
        opt_str_text(r) == opt_text(*value),
{
    match value {
        Some(s) => Some(s.as_str()),
        None => None,
    }
}

impl MultipartField {
    /// A field's content is never longer than `MAX_FIELD_BYTES`.
    #[verifier::type_invariant]
    pub closed spec fn wf(&self) -> bool {
        self.bytes@.len() <= MAX_FIELD_BYTES
    }

    /// Makes the field at position `index` out of what the parser read.
    pub fn new(parts: FieldParts, index: usize) -> (field: MultipartField)
        requires
            parts.bytes@.len() <= MAX_FIELD_BYTES,
        ensures
            field@ == parts.at(index as nat),
            field.wf(),
    {
        MultipartField {
            name: parts.name,
            file_name: parts.file_name,
            content_type: parts.content_type,
            headers: parts.headers,
            bytes: parts.bytes,
            index,
        }
    }

    /// Returns the index of this field in the form.
    pub fn index(&self) -> (r: usize)
        ensures
            r == self@.index,
    {
        self.index
    }

    /// Returns the name of this field.
    pub fn name(&self) -> (r: Option<&str>)
        ensures
            opt_str_text(r) == self@.name,
    {
        opt_as_str(&self.name)
    }

    /// Returns the file name of this field.
    pub fn file_name(&self) -> (r: Option<&str>)
        ensures
            opt_str_text(r) == self@.file_name,
    {
        opt_as_str(&self.file_name)
    }

    /// Returns the content type of this field, as the text of a media type.
    pub fn content_type(&self) -> (r: Option<&str>)
        ensures
            opt_str_text(r) == self@.content_type,
    {
        opt_as_str(&self.content_type)
    }

    /// Returns the headers of this field.
    pub fn headers(&self) -> (r: &HeaderMap)
        ensures
            *r == self@.headers,
    {
        &self.headers
    }

    /// Returns the bytes content of this field.
    pub fn bytes(&self) -> (r: &Vec<u8>)
        ensures
            r@ == self@.bytes,
            r@.len() <= MAX_FIELD_BYTES,
    {
        proof {
            use_type_invariant(self);
        }
        &self.bytes
    }

    /// Converts the bytes of this field to a string, as UTF-8 unless the
    /// content type names another encoding.
    pub fn text(&self) -> (r: String)
        ensures
            r@ == self@.text(),
    {
        self.text_with_charset("utf-8")
    }

    /// Converts this field to a string. The encoding is the one that the
    /// content type's `charset` parameter names, else `default_encoding`;
    /// where that label is unknown it is UTF-8. Malformed sequences come out
    /// as the replacement character.
    pub fn text_with_charset(&self, default_encoding: &str) -> (r: String)
        ensures
            r@ == self@.text_with_charset(default_encoding@),
    {
        proof {
            use_type_invariant(self);
        }
        let charset = match &self.content_type {
            Some(content_type) => content_type_charset(content_type.as_str()),
            None => None,
        };
        let asked = asked_label(&charset, default_encoding);
        let known = label_is_known(asked);
        let label = effective_label(asked, known);
        if !known {
            // The fallback is a known label; the call tells so.
            label_is_known(label);
        }
        decode_label(label, &self.bytes)
    }
}

/// The label that a field asks for: its charset where it has one, else the
/// default.
pub fn asked_label<'a>(charset: &'a Option<String>, default_encoding: &'a str) -> (label: &'a str)
    ensures
        label@ == match *charset {
            Some(named) => named@,
            None => default_encoding@,
        },
{
    match charset {
        Some(named) => named.as_str(),
        None => default_encoding,
    }
}

/// The label under which a field is decoded, given whether the label it asks
/// for is known: the label itself, or the fallback.
pub fn effective_label<'a>(asked: &'a str, known: bool) -> (label: &'a str)
    ensures
        label@ == if known {
            asked@
        } else {
            fallback_label()
        },
{
    if known {
        asked
    } else {
        "utf-8"
    }
}

/// The first position at or after `from` whose field bears `name`.
pub open spec fn position_from(fields: Seq<FieldView>, name: Seq<char>, from: int) -> Option<int>
    decreases fields.len() - from,
{
    if from < 0 || from >= fields.len() {
        None
    } else if fields[from].is_named(name) {
        Some(from)
    } else {
        position_from(fields, name, from + 1)
    }
}

/// The position of the first field that bears `name`.
pub open spec fn position_of(fields: Seq<FieldView>, name: Seq<char>) -> Option<int> {
    position_from(fields, name, 0)
}

/// `position_from` finds the least position at or after `from` whose field
/// bears the name, and finds one whenever there is one.
pub proof fn lemma_position_from(fields: Seq<FieldView>, name: Seq<char>, from: int)
    requires
        0 <= from,
    ensures
        match position_from(fields, name, from) {
            Some(p) => {
                &&& from <= p < fields.len()
                &&& fields[p].is_named(name)
                &&& forall|j: int| from <= j < p ==> !(#[trigger] fields[j]).is_named(name)
            },
            None => forall|j: int| from <= j < fields.len() ==> !(#[trigger] fields[j]).is_named(name),
        },
    decreases fields.len() - from,
{
    if from < fields.len() && !fields[from].is_named(name) {
        lemma_position_from(fields, name, from + 1);
    }
}

/// A multipart form: every field of it, buffered, in arrival order.
#[derive(Debug)]
pub struct MultipartForm {
    fields: Vec<MultipartField>,
}

impl View for MultipartForm {
    type V = Seq<FieldView>;

    closed spec fn view(&self) -> Seq<FieldView> {
        Seq::new(self.fields@.len(), |i: int| self.fields@[i]@)
    }
}

impl MultipartForm {
    /// The fields themselves, in order.
    pub closed spec fn fields_spec(&self) -> Seq<MultipartField> {
        self.fields@
    }

    /// Positions are dense: the field at `i` has index `i`.
    #[verifier::type_invariant]
    pub closed spec fn wf(&self) -> bool {
        forall|i: int| 0 <= i < self.fields@.len() ==> (#[trigger] self.fields@[i])@.index == i
    }

    /// The view is the view of each field, in order.
    pub proof fn lemma_view(&self)
        ensures
            self@.len() == self.fields_spec().len(),
            forall|i: int| 0 <= i < self@.len() ==> #[trigger] self@[i] == self.fields_spec()[i]@,
    {
    }

    /// Positions are dense and follow arrival order: the field at `i` of a
    /// valid form has index `i`.
    pub proof fn law_positions_are_dense(&self)
        requires
            self.wf(),
        ensures
            forall|i: int| 0 <= i < self@.len() ==> (#[trigger] self@[i]).index == i,
    {
        assert forall|i: int| 0 <= i < self@.len() implies (#[trigger] self@[i]).index == i by {
        }
    }

    /// Buffers the fields that the parser yielded, in the order in which they
    /// arrived: the field at `i` gets index `i`.
    pub fn with_multipart(parts: Vec<FieldParts>) -> (form: MultipartForm)
        requires
            forall|i: int| 0 <= i < parts@.len() ==> (#[trigger] parts@[i]).bytes@.len() <= MAX_FIELD_BYTES,
        ensures
            form.wf(),
            form@.len() == parts@.len(),
            forall|i: int| 0 <= i < parts@.len() ==> #[trigger] form@[i] == parts@[i].at(i as nat),
    {
        let ghost given = parts@;
        let mut parts = parts;
        let mut fields: Vec<MultipartField> = Vec::new();
        // Take the parts from the back, then restore the order.
        let mut taken: Vec<FieldParts> = Vec::new();
        while parts.len() > 0
            invariant
                parts@.len() + taken@.len() == given.len(),
                forall|i: int| 0 <= i < parts@.len() ==> parts@[i] == given[i],
                forall|j: int|
                    0 <= j < taken@.len() ==> #[trigger] taken@[j] == given[given.len() - 1 - j],
            decreases parts@.len(),
        {
            let last = parts.pop().unwrap();
            taken.push(last);
        }
        while taken.len() > 0
            invariant
                taken@.len() + fields@.len() == given.len(),
                forall|j: int|
                    0 <= j < taken@.len() ==> #[trigger] taken@[j] == given[given.len() - 1 - j],
                forall|i: int| 0 <= i < fields@.len() ==> (#[trigger] fields@[i])@ == given[i].at(i as nat),
                forall|i: int| 0 <= i < given.len() ==> (#[trigger] given[i]).bytes@.len() <= MAX_FIELD_BYTES,
            decreases taken@.len(),
        {
            let index = fields.len();
            let next = taken.pop().unwrap();
            fields.push(MultipartField::new(next, index));
        }
        let form = MultipartForm { fields };
        assert forall|i: int| 0 <= i < given.len() implies #[trigger] form@[i] == given[i].at(i as nat) by {
        }
        form
    }

    /// Returns the field in the given index.
    pub fn get(&self, index: usize) -> (r: Option<&MultipartField>)
        ensures
            match r {
                Some(field) => index < self@.len() && *field == self.fields_spec()[index as int]
                    && field@ == self@[index as int],
                None => index >= self@.len(),
            },
    {
        if index < self.fields.len() {
            Some(&self.fields[index])
        } else {
            None
        }
    }

    /// Returns the first field with the given name.
    pub fn get_by_name(&self, name: &str) -> (r: Option<&MultipartField>)
        ensures
            match r {
                Some(field) => {
                    &&& position_of(self@, name@) matches Some(p)
                    &&& *field == self.fields_spec()[p]
                    &&& field@ == self@[p]
                },
                None => position_of(self@, name@) is None,
            },
    {
        let wanted = name.to_owned();
        let mut i: usize = 0;
        while i < self.fields.len()
            invariant
                i <= self.fields@.len(),
                wanted@ == name@,
                position_of(self@, name@) == position_from(self@, name@, i as int),
            decreases self.fields@.len() - i,
        {
            let field = &self.fields[i];
            let found = match &field.name {
                Some(n) => *n == wanted,
                None => false,
            };
            if found {
                return Some(field);
            }
            i += 1;
        }
        None
    }

    /// Returns all the fields.
    pub fn fields(&self) -> (r: &[MultipartField])
        ensures
            r@ == self.fields_spec(),
    {
        self.fields.as_slice()
    }

    /// Returns the number of fields.
    pub fn len(&self) -> (r: usize)
        ensures
            r == self@.len(),
    {
        self.fields.len()
    }

    /// Returns true if this form had no fields.
    pub fn is_empty(&self) -> (r: bool)
        ensures
            r == (self@.len() == 0),
    {
        self.len() == 0
    }
}

impl core::ops::Index<usize> for MultipartForm {
    type Output = MultipartField;

    /// Returns the field at the given index, which has to be one of the
    /// form's.
    fn index(&self, index: usize) -> (field: &MultipartField)
        ensures
            *field == self.fields_spec()[index as int],
            field@ == self@[index as int],
    {
        &self.fields[index]
    }
}

impl vstd::std_specs::core::IndexSpecImpl<usize> for MultipartForm {
    open spec fn index_req(&self, index: &usize) -> bool {
        *index < self@.len()
    }
}

} // verus!
