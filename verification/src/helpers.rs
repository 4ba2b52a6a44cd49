//! A builder of multipart bodies, for trying conversions out.
//!
//! The wire format is that of `multipart/form-data`: each part starts with
//! `--boundary` and a line break, then its headers, an empty line, its
//! content and a line break; `--boundary--` and a line break end the body.
//! A body is bytes: what a file holds goes into it unchanged.
use crate::text::chars_of;
use indexmap::IndexMap;
use std::borrow::Cow;
use vstd::prelude::*;
use vstd::string::*;

verus! {

/// The ordered map that holds a builder's inputs.
#[verifier::external_type_specification]
#[verifier::external_body]
#[verifier::reject_recursive_types(K)]
#[verifier::reject_recursive_types(V)]
#[verifier::reject_recursive_types(S)]
pub struct ExIndexMap<K, V, S>(indexmap::IndexMap<K, V, S>);

/// `Clone::clone` of `indexmap::IndexMap`.
pub assume_specification<K: Clone, V: Clone, S: Clone>[ <indexmap::IndexMap<K, V, S> as Clone>::clone ](
    map: &indexmap::IndexMap<K, V, S>,
) -> indexmap::IndexMap<K, V, S>
;

/// An input file, as mathematical values.
pub struct InputFileView {
    pub contents: Seq<u8>,
    pub file_name: Seq<char>,
    pub content_type: Seq<char>,
}

/// A form input, as mathematical values.
pub enum InputValueView {
    Text(Seq<char>),
    Files(Seq<InputFileView>),
}

/// An input file
#[derive(Debug, Clone)]
pub struct InputFile {
    pub contents: Vec<u8>,
    pub file_name: String,
    /// The text of the file's media type.
    pub content_type: String,
}

impl View for InputFile {
    type V = InputFileView;

    open spec fn view(&self) -> InputFileView {
        InputFileView {
            contents: self.contents@,
            file_name: self.file_name@,
            content_type: self.content_type@,
        }
    }
}

/// Represents a form input.
#[derive(Debug, Clone)]
pub enum InputValue {
    /// A text input.
    Text(String),
    /// A binary file input.
    Files(Vec<InputFile>),
}

/// The views of files, in order.
pub open spec fn input_file_views(files: Seq<InputFile>) -> Seq<InputFileView> {
    Seq::new(files.len(), |i: int| files[i]@)
}

impl View for InputValue {
    type V = InputValueView;

    open spec fn view(&self) -> InputValueView {
        match self {
            InputValue::Text(text) => InputValueView::Text(text@),
            InputValue::Files(files) => InputValueView::Files(input_file_views(files@)),
        }
    }
}

impl InputValue {
    /// Returns `true` if is text.
    pub fn is_text(&self) -> (r: bool)
        ensures
            r == (self is Text),
    {
        match self {
            InputValue::Text(_) => true,
            InputValue::Files(_) => false,
        }
    }

    /// Returns `true` if is a file.
    pub fn is_file(&self) -> (r: bool)
        ensures
            r == (self is Files),
    {
        match self {
            InputValue::Text(_) => false,
            InputValue::Files(_) => true,
        }
    }
}

/// The inputs of a builder: names and values in insertion order.
pub type Inputs = Seq<(Seq<char>, InputValueView)>;

/// What an `indexmap::IndexMap` of inputs holds: its keys and values, in the
/// map's order.
pub uninterp spec fn entries(map: IndexMap<String, InputValue>) -> Seq<(Seq<char>, InputValueView)>;

/// The first position at or after `from` that holds `key`.
pub open spec fn key_position_from(inputs: Inputs, key: Seq<char>, from: int) -> Option<int>
    decreases inputs.len() - from,
{
    if from < 0 || from >= inputs.len() {
        None
    } else if inputs[from].0 == key {
        Some(from)
    } else {
        key_position_from(inputs, key, from + 1)
    }
}

/// The position that holds `key`.
pub open spec fn key_position(inputs: Inputs, key: Seq<char>) -> Option<int> {
    key_position_from(inputs, key, 0)
}

/// The inputs after `value` was inserted under `key`: in the key's place
/// where the key was there, else at the end.
pub open spec fn inserted(inputs: Inputs, key: Seq<char>, value: InputValueView) -> Inputs {
    match key_position(inputs, key) {
        Some(position) => inputs.update(position, (key, value)),
        None => inputs.push((key, value)),
    }
}

/// `IndexMap::new`: a map that holds nothing.
#[verifier::external_body]
fn new_inputs() -> (map: IndexMap<String, InputValue>)
    ensures
        entries(map) == Seq::<(Seq<char>, InputValueView)>::empty(),
{
    IndexMap::new()
}

/// `IndexMap::len`: the number of key-value pairs.
#[verifier::external_body]
fn inputs_len(map: &IndexMap<String, InputValue>) -> (len: usize)
    ensures
        len == entries(*map).len(),
{
    map.len()
}

/// `IndexMap::get`: the value stored for the key, if the key is present.
#[verifier::external_body]
fn inputs_get<'a>(map: &'a IndexMap<String, InputValue>, key: &str) -> (value: Option<&'a InputValue>)
    ensures
        match value {
            Some(found) => key_position(entries(*map), key@) matches Some(position) && found@ == entries(
                *map,
            )[position].1,
            None => key_position(entries(*map), key@) is None,
        },
{
    map.get(key)
}

/// `IndexMap::insert`: where the key is present it keeps its place and gets
/// the new value; else the pair is inserted last in order.
#[verifier::external_body]
fn inputs_insert(map: &mut IndexMap<String, InputValue>, key: String, value: InputValue)
    ensures
        entries(*final(map)) == inserted(entries(*old(map)), key@, value@),
{
    map.insert(key, value);
}

/// `IndexMap::get_index`: the key-value pair at a position, positions
/// running from 0 to the length.
#[verifier::external_body]
fn inputs_at<'a>(map: &'a IndexMap<String, InputValue>, index: usize) -> (pair: Option<
    (&'a String, &'a InputValue),
>)
    ensures
        match pair {
            Some((key, value)) => index < entries(*map).len() && key@ == entries(*map)[index as int].0
                && value@ == entries(*map)[index as int].1,
            None => index >= entries(*map).len(),
        },
{
    map.get_index(index)
}

/// The media type that `mime_guess` knows for a file name extension, or
/// `application/octet-stream` where it knows none.
pub uninterp spec fn guessed_type(extension: Seq<char>) -> Seq<char>;

/// `mime_guess::from_ext` and `MimeGuess::first_or_octet_stream`: the first
/// media type on record for the extension, whatever its case, or
/// `application/octet-stream`.
#[verifier::external_body]
fn guess_content_type(extension: &str) -> (content_type: String)
    ensures
        content_type@ == guessed_type(extension@),
{
    mime_guess::from_ext(extension).first_or_octet_stream().to_string()
}

/// The position of the last `.` among the first `count` characters.
pub open spec fn last_dot(name: Seq<char>, count: int) -> Option<int>
    decreases count,
{
    if count <= 0 {
        None
    } else if name[count - 1] == '.' {
        Some(count - 1)
    } else {
        last_dot(name, count - 1)
    }
}

/// The extension of a file name: what follows its last `.`, unless the name
/// has none or only starts with one. The name `..` is that of no file, and
/// has no extension.
pub open spec fn extension_of(file_name: Seq<char>) -> Option<Seq<char>> {
    match last_dot(file_name, file_name.len() as int) {
        Some(dot) => if dot == 0 || file_name == seq!['.', '.'] {
            None
        } else {
            Some(file_name.skip(dot + 1))
        },
        None => None,
    }
}

/// The content type that goes with a file name: the guess for its
/// extension, or `application/octet-stream` where it has none.
pub open spec fn content_type_of(file_name: Seq<char>) -> Seq<char> {
    match extension_of(file_name) {
        Some(extension) => guessed_type(extension),
        None => "application/octet-stream"@,
    }
}

/// The extension of a file name.
pub fn file_extension(file_name: &str) -> (r: Option<String>)
    ensures
        match r {
            Some(extension) => extension_of(file_name@) == Some(extension@),
            None => extension_of(file_name@) is None,
        },
{
    let chars = chars_of(file_name);
    let mut count: usize = chars.len();
    while count > 0
        invariant
            count <= chars@.len(),
            chars@ == file_name@,
            last_dot(file_name@, file_name@.len() as int) == last_dot(file_name@, count as int),
        decreases count,
    {
        if chars[count - 1] == '.' {
            if count == 1 || (count == 2 && chars.len() == 2 && chars[0] == '.') {
                assert(count == 2 ==> file_name@ =~= seq!['.', '.']);
                return None;
            }
            assert(file_name@ != seq!['.', '.']);
            let extension = file_name.substring_char(count, chars.len());
            return Some(extension.to_owned());
        }
        count -= 1;
    }
    None
}

/// The bytes of a text: its UTF-8.
pub open spec fn utf8(text: Seq<char>) -> Seq<u8> {
    vstd::utf8::encode_utf8(text)
}

/// The opening line of a part.
pub open spec fn part_start(boundary: Seq<char>) -> Seq<u8> {
    utf8("--"@) + utf8(boundary) + utf8("\r\n"@)
}

/// The part of a text input: its header line, an empty line, the text and a
/// line break.
pub open spec fn text_part(boundary: Seq<char>, name: Seq<char>, text: Seq<char>) -> Seq<u8> {
    part_start(boundary) + utf8("Content-Disposition: form-data; name=\""@) + utf8(name) + utf8(
        "\"\r\n\r\n"@,
    ) + utf8(text) + utf8("\r\n"@)
}

/// The part of one file: its two header lines, an empty line, the file's
/// bytes as they are, and a line break.
pub open spec fn file_part(boundary: Seq<char>, name: Seq<char>, file: InputFileView) -> Seq<u8> {
    part_start(boundary) + utf8("Content-Disposition: form-data; name=\""@) + utf8(name) + utf8(
        "\"; filename=\""@,
    ) + utf8(file.file_name) + utf8("\"\r\n"@) + utf8("Content-Type: "@) + utf8(file.content_type)
        + utf8("\r\n\r\n"@) + file.contents + utf8("\r\n"@)
}

/// The parts of the first `count` files sent under one name.
pub open spec fn file_parts(
    boundary: Seq<char>,
    name: Seq<char>,
    files: Seq<InputFileView>,
    count: int,
) -> Seq<u8>
    decreases count,
{
    if count <= 0 {
        Seq::empty()
    } else {
        file_parts(boundary, name, files, count - 1) + file_part(boundary, name, files[count - 1])
    }
}

/// The parts of one input.
pub open spec fn input_parts(boundary: Seq<char>, name: Seq<char>, value: InputValueView) -> Seq<u8> {
    match value {
        InputValueView::Text(text) => text_part(boundary, name, text),
        InputValueView::Files(files) => file_parts(boundary, name, files, files.len() as int),
    }
}

/// The parts of the first `count` inputs.
pub open spec fn parts(boundary: Seq<char>, inputs: Inputs, count: int) -> Seq<u8>
    decreases count,
{
    if count <= 0 {
        Seq::empty()
    } else {
        parts(boundary, inputs, count - 1) + input_parts(boundary, inputs[count - 1].0, inputs[count - 1].1)
    }
}

/// The bytes of the body that the inputs make: their parts in order, then
/// the closing line.
pub open spec fn body_bytes(boundary: Seq<char>, inputs: Inputs) -> Seq<u8> {
    parts(boundary, inputs, inputs.len() as int) + utf8("--"@) + utf8(boundary) + utf8("--\r\n"@)
}

/// The inputs after a file was added under `name`: it joins the files that
/// were sent under the name before, or replaces a text of that name.
pub open spec fn with_file(inputs: Inputs, name: Seq<char>, file: InputFileView) -> Inputs {
    let earlier = match key_position(inputs, name) {
        Some(position) => match inputs[position].1 {
            InputValueView::Files(files) => files,
            InputValueView::Text(_) => Seq::empty(),
        },
        None => Seq::empty(),
    };
    inserted(inputs, name, InputValueView::Files(earlier.push(file)))
}

/// Convert a type into a `Vec<u8>`
pub trait ToBytes {
    fn to_bytes(self) -> Vec<u8>;
}

impl ToBytes for Vec<u8> {
    fn to_bytes(self) -> (bytes: Vec<u8>)
        ensures
            bytes == self,
    {
        self
    }
}

/// A copy of the bytes of a slice.
fn copy_slice(source: &[u8]) -> (copy: Vec<u8>)
    ensures
        copy@ == source@,
{
    let mut copy: Vec<u8> = Vec::new();
    let mut i: usize = 0;
    while i < source.len()
        invariant
            i <= source@.len(),
            copy@ == source@.take(i as int),
        decreases source@.len() - i,
    {
        copy.push(source[i]);
        i += 1;
    }
    copy
}

impl ToBytes for &Vec<u8> {
    fn to_bytes(self) -> (bytes: Vec<u8>)
        ensures
            bytes@ == self@,
    {
        copy_slice(self.as_slice())
    }
}

impl<const N: usize> ToBytes for [u8; N] {
    fn to_bytes(self) -> (bytes: Vec<u8>)
        ensures
            bytes@ == self@,
    {
        copy_slice(self.as_slice())
    }
}

impl<const N: usize> ToBytes for &[u8; N] {
    fn to_bytes(self) -> (bytes: Vec<u8>)
        ensures
            bytes@ == self@,
    {
        copy_slice(self.as_slice())
    }
}

impl ToBytes for &[u8] {
    fn to_bytes(self) -> (bytes: Vec<u8>)
        ensures
            bytes@ == self@,
    {
        copy_slice(self)
    }
}

impl ToBytes for &str {
    fn to_bytes(self) -> (bytes: Vec<u8>)
        ensures
            bytes@ == vstd::utf8::encode_utf8(self@),
    {
        copy_slice(self.as_bytes())
    }
}

impl ToBytes for String {
    fn to_bytes(self) -> (bytes: Vec<u8>)
        ensures
            bytes@ == vstd::utf8::encode_utf8(self@),
    {
        copy_slice(self.as_str().as_bytes())
    }
}

impl ToBytes for Cow<'_, [u8]> {
    fn to_bytes(self) -> (bytes: Vec<u8>)
        ensures
            bytes@ == self@,
    {
        match self {
            Cow::Borrowed(borrowed) => copy_slice(borrowed),
            Cow::Owned(owned) => owned,
        }
    }
}

impl ToBytes for Cow<'_, str> {
    fn to_bytes(self) -> (bytes: Vec<u8>)
        ensures
            bytes@ == vstd::utf8::encode_utf8(self@),
    {
        match self {
            Cow::Borrowed(borrowed) => copy_slice(borrowed.as_bytes()),
            Cow::Owned(owned) => copy_slice(owned.as_str().as_bytes()),
        }
    }
}

/// A buffer of bytes that is shared by reference count.
#[verifier::external_type_specification]
#[verifier::external_body]
pub struct ExBytes(multer::bytes::Bytes);

/// A buffer of bytes that can grow.
#[verifier::external_type_specification]
#[verifier::external_body]
pub struct ExBytesMut(multer::bytes::BytesMut);

/// The iterator over the bytes of a string slice.
#[verifier::external_type_specification]
#[verifier::external_body]
pub struct ExStrBytes<'a>(std::str::Bytes<'a>);

/// What a `bytes::Bytes` holds: its bytes, in order.
pub uninterp spec fn shared_content(buffer: multer::bytes::Bytes) -> Seq<u8>;

/// What a `bytes::BytesMut` holds: its bytes, in order.
pub uninterp spec fn growable_content(buffer: multer::bytes::BytesMut) -> Seq<u8>;

/// What an iterator over the bytes of a string slice has yet to yield: the
/// bytes that are left, in order.
pub uninterp spec fn rest_content(rest: std::str::Bytes<'_>) -> Seq<u8>;

/// `to_vec` on the slice that a `Bytes` derefs to: a copy of its content.
#[verifier::external_body]
fn shared_to_vec(buffer: multer::bytes::Bytes) -> (bytes: Vec<u8>)
    ensures
        bytes@ == shared_content(buffer),
{
    buffer.to_vec()
}

/// `to_vec` on the slice that a `BytesMut` derefs to: a copy of its content.
#[verifier::external_body]
fn growable_to_vec(buffer: multer::bytes::BytesMut) -> (bytes: Vec<u8>)
    ensures
        bytes@ == growable_content(buffer),
{
    buffer.to_vec()
}

/// `Iterator::collect` on the bytes of a string slice: what is left of them,
/// in order.
#[verifier::external_body]
fn rest_to_vec(rest: std::str::Bytes<'_>) -> (bytes: Vec<u8>)
    ensures
        bytes@ == rest_content(rest),
{
    rest.collect()
}

impl ToBytes for multer::bytes::Bytes {
    fn to_bytes(self) -> (bytes: Vec<u8>)
        ensures
            bytes@ == shared_content(self),
    {
        shared_to_vec(self)
    }
}

impl ToBytes for multer::bytes::BytesMut {
    fn to_bytes(self) -> (bytes: Vec<u8>)
        ensures
            bytes@ == growable_content(self),
    {
        growable_to_vec(self)
    }
}

impl ToBytes for std::str::Bytes<'_> {
    fn to_bytes(self) -> (bytes: Vec<u8>)
        ensures
            bytes@ == rest_content(self),
    {
        rest_to_vec(self)
    }
}

/// A builder for multipart form data bodies.
#[derive(Debug, Clone)]
pub struct MultipartFormBuilder {
    fields: IndexMap<String, InputValue>,
}

impl View for MultipartFormBuilder {
    type V = Seq<(Seq<char>, InputValueView)>;

    closed spec fn view(&self) -> Seq<(Seq<char>, InputValueView)> {
        entries(self.fields)
    }
}

/// A copy of one input file.
fn copy_file(file: &InputFile) -> (copy: InputFile)
    ensures
        copy@ == file@,
{
    InputFile {
        contents: copy_slice(file.contents.as_slice()),
        file_name: file.file_name.clone(),
        content_type: file.content_type.clone(),
    }
}

/// A copy of input files.
fn copy_files(files: &Vec<InputFile>) -> (copy: Vec<InputFile>)
    ensures
        input_file_views(copy@) == input_file_views(files@),
{
    let mut copy: Vec<InputFile> = Vec::new();
    let mut i: usize = 0;
    while i < files.len()
        invariant
            i <= files@.len(),
            copy@.len() == i,
            forall|j: int| 0 <= j < i ==> (#[trigger] copy@[j])@ == files@[j]@,
        decreases files@.len() - i,
    {
        copy.push(copy_file(&files[i]));
        i += 1;
    }
    copy
}

impl MultipartFormBuilder {
    /// Creates a new MultipartFormBuilder instance.
    pub fn new() -> (builder: Self)
        ensures
            builder@.len() == 0,
    {
        Self { fields: new_inputs() }
    }

    /// Adds a text input field to the form. A text replaces what was sent
    /// under the same name before, in its place.
    pub fn text(&mut self, name: &str, value: &str) -> (builder: &mut Self)
        ensures
            builder@ == inserted(old(self)@, name@, InputValueView::Text(value@)),
            *final(self) == *final(builder),
    {
        inputs_insert(&mut self.fields, name.to_owned(), InputValue::Text(value.to_owned()));
        self
    }

    /// Adds a file under `name`: it joins the files that were sent under the
    /// name before, or replaces a text of that name.
    pub fn add_file(&mut self, name: &str, file: InputFile) -> (builder: &mut Self)
        ensures
            builder@ == with_file(old(self)@, name@, file@),
            *final(self) == *final(builder),
    {
        let ghost added = file@;
        let ghost wanted = match key_position(self@, name@) {
            Some(position) => match self@[position].1 {
                InputValueView::Files(files) => files,
                InputValueView::Text(_) => Seq::empty(),
            },
            None => Seq::empty(),
        };
        let mut files: Vec<InputFile> = match inputs_get(&self.fields, name) {
            Some(found) => match found {
                InputValue::Files(earlier) => copy_files(earlier),
                InputValue::Text(_) => Vec::new(),
            },
            None => Vec::new(),
        };
        files.push(file);
        assert(input_file_views(files@) =~= wanted.push(added));
        inputs_insert(&mut self.fields, name.to_owned(), InputValue::Files(files));
        self
    }

    /// Adds a file input field to the form, with the given contents, file
    /// name and media type.
    pub fn raw_file<C: ToBytes>(&mut self, name: &str, contents: C, file_name: &str, content_type: &str) -> (builder:
        &mut Self)
        ensures
            exists|bytes: Vec<u8>| #[trigger]
                call_ensures(C::to_bytes, (contents,), bytes) && builder@ == with_file(
                    old(self)@,
                    name@,
                    (InputFileView { contents: bytes@, file_name: file_name@, content_type: content_type@ }),
                ),
            *final(self) == *final(builder),
    {
        let bytes = contents.to_bytes();
        let file = InputFile {
            contents: bytes,
            file_name: file_name.to_owned(),
            content_type: content_type.to_owned(),
        };
        self.add_file(name, file)
    }

    /// Adds a file that was read from a path: `file_name` is the last
    /// component of the path and `contents` what the file holds. The media
    /// type is guessed from the extension of the file name.
    pub fn file_from_path(&mut self, name: &str, file_name: &str, contents: Vec<u8>) -> (builder: &mut Self)
        ensures
            builder@ == with_file(
                old(self)@,
                name@,
                (InputFileView {
                    contents: contents@,
                    file_name: file_name@,
                    content_type: content_type_of(file_name@),
                }),
            ),
            *final(self) == *final(builder),
    {
        let content_type = match file_extension(file_name) {
            Some(extension) => guess_content_type(extension.as_str()),
            None => "application/octet-stream".to_owned(),
        };
        let file = InputFile { contents, file_name: file_name.to_owned(), content_type };
        self.add_file(name, file)
    }

    /// Builds the bytes of the multipart body: the parts of the inputs in the
    /// order in which their names were first used, then the closing line.
    /// Names, file names, media types and texts go in as UTF-8; the bytes of
    /// a file go in as they are. The builder keeps its inputs.
    pub fn build(&mut self, boundary: &str) -> (body: Vec<u8>)
        ensures
            body@ == body_bytes(boundary@, old(self)@),
            *final(self) == *old(self),
    {
        let mut body: Vec<u8> = Vec::new();
        let count = inputs_len(&self.fields);
        let ghost inputs = self@;
        let mut i: usize = 0;
        while i < count
            invariant
                i <= count,
                count == inputs.len(),
                inputs == self@,
                *self == *old(self),
                body@ == parts(boundary@, inputs, i as int),
            decreases count - i,
        {
            let (name, value) = inputs_at(&self.fields, i).unwrap();
            match value {
                InputValue::Text(text) => {
                    write_text_part(&mut body, boundary, name.as_str(), text.as_str());
                },
                InputValue::Files(files) => {
                    let ghost before = body@;
                    let mut j: usize = 0;
                    while j < files.len()
                        invariant
                            j <= files@.len(),
                            body@ == before + file_parts(boundary@, name@, input_file_views(files@), j as int),
                        decreases files@.len() - j,
                    {
                        write_file_part(&mut body, boundary, name.as_str(), &files[j]);
                        j += 1;
                    }
                },
            }
            i += 1;
        }
        put(&mut body, "--");
        put(&mut body, boundary);
        put(&mut body, "--\r\n");
        body
    }
}

/// Writes bytes at the end of the body.
fn put_bytes(body: &mut Vec<u8>, bytes: &[u8])
    ensures
        final(body)@ == old(body)@ + bytes@,
{
    let mut i: usize = 0;
    while i < bytes.len()
        invariant
            i <= bytes@.len(),
            body@ == old(body)@ + bytes@.take(i as int),
        decreases bytes@.len() - i,
    {
        body.push(bytes[i]);
        assert(bytes@.take(i as int + 1) == bytes@.take(i as int).push(bytes@[i as int]));
        i += 1;
    }
    assert(bytes@.take(bytes@.len() as int) == bytes@);
}

/// Writes a text at the end of the body, as UTF-8.
fn put(body: &mut Vec<u8>, text: &str)
    ensures
        final(body)@ == old(body)@ + utf8(text@),
{
    put_bytes(body, text.as_bytes());
}

/// Writes the part of a text input.
fn write_text_part(body: &mut Vec<u8>, boundary: &str, name: &str, text: &str)
    ensures
        final(body)@ == old(body)@ + text_part(boundary@, name@, text@),
{
    put(body, "--");
    put(body, boundary);
    put(body, "\r\n");
    put(body, "Content-Disposition: form-data; name=\"");
    put(body, name);
    put(body, "\"\r\n\r\n");
    put(body, text);
    put(body, "\r\n");
}

/// Writes the part of one file.
fn write_file_part(body: &mut Vec<u8>, boundary: &str, name: &str, file: &InputFile)
    ensures
        final(body)@ == old(body)@ + file_part(boundary@, name@, file@),
{
    put(body, "--");
    put(body, boundary);
    put(body, "\r\n");
    put(body, "Content-Disposition: form-data; name=\"");
    put(body, name);
    put(body, "\"; filename=\"");
    put(body, file.file_name.as_str());
    put(body, "\"\r\n");
    put(body, "Content-Type: ");
    put(body, file.content_type.as_str());
    put(body, "\r\n\r\n");
    put_bytes(body, file.contents.as_slice());
    put(body, "\r\n");
}

} // verus!
