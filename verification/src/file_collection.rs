//! All the files of a form, or all those sent under one name.
use crate::error::Error;
use crate::form_file::{file_of, FileView, FormFile};
use crate::from_multipart::{FormContext, FromMultipart};
use crate::from_multipart_field::FromMultipartField;
use crate::multipart_form::{FieldView, MultipartForm};
use crate::text::same_text;
use vstd::prelude::*;

verus! {

/// Whether a field belongs to the collection for `name`: it has a file
/// name, and it bears `name` where there is one.
pub open spec fn is_collected(field: FieldView, name: Option<Seq<char>>) -> bool {
    field.file_name is Some && (name is Some ==> field.name == name)
}

/// The files among `fields` that belong to the collection for `name`, in
/// order; `None` where one of them has no name of its own.
pub open spec fn collected(fields: Seq<FieldView>, name: Option<Seq<char>>) -> Option<Seq<FileView>>
    decreases fields.len(),
{
    if fields.len() == 0 {
        Some(Seq::empty())
    } else {
        match collected(fields.drop_last(), name) {
            None => None,
            Some(earlier) => if is_collected(fields.last(), name) {
                match file_of(fields.last()) {
                    Some(file) => Some(earlier.push(file)),
                    None => None,
                }
            } else {
                Some(earlier)
            },
        }
    }
}

/// The views of files.
pub open spec fn file_views(files: Seq<FormFile>) -> Seq<FileView> {
    Seq::new(files.len(), |i: int| files[i]@)
}

/// Provides a way to collect all the files in a `form`.
#[derive(Debug, Clone)]
pub struct FileCollection(Vec<FormFile>);

impl FileCollection {
    /// The collected files, in order.
    pub closed spec fn files(self) -> Seq<FormFile> {
        self.0@
    }

    /// Returns all the collected files.
    pub fn into_inner(self) -> (files: Vec<FormFile>)
        ensures
            files@ == self.files(),
    {
        self.0
    }
}

/// Where a prefix of the fields has a file without a name, so has the whole.
proof fn lemma_collected_fault(fields: Seq<FieldView>, name: Option<Seq<char>>, count: int)
    requires
        0 <= count <= fields.len(),
        collected(fields.take(count), name) is None,
    ensures
        collected(fields, name) is None,
    decreases fields.len() - count,
{
    if count < fields.len() {
        assert(fields.take(count + 1).drop_last() == fields.take(count));
        lemma_collected_fault(fields, name, count + 1);
    } else {
        assert(fields.take(count) == fields);
    }
}

impl FromMultipart for FileCollection {
    /// Collects the files of the form: with a name in the context those that
    /// were sent under that name, without one all of them. Fields that are
    /// no files are passed over. A file without a field name fails the
    /// collection with `MissingName`.
    fn from_multipart(multipart: &MultipartForm, ctx: FormContext<'_>) -> (r: Result<FileCollection, Error>)
        ensures
            match r {
                Ok(collection) => collected(multipart@, ctx.name()) == Some(file_views(collection.files())),
                Err(e) => collected(multipart@, ctx.name()) is None && e is MissingName,
            },
    {
        let mut files: Vec<FormFile> = Vec::new();
        let mut i: usize = 0;
        while i < multipart.len()
            invariant
                i <= multipart@.len(),
                collected(multipart@.take(i as int), ctx.name()) == Some(file_views(files@)),
            decreases multipart@.len() - i,
        {
            let field = multipart.get(i).unwrap();
            proof {
                assert(multipart@.take(i as int + 1).drop_last() == multipart@.take(i as int));
            }
            let is_file = field.file_name().is_some();
            let named = match ctx.field_name {
                Some(wanted) => match field.name() {
                    Some(name) => same_text(name, wanted),
                    None => false,
                },
                None => true,
            };
            if is_file && named {
                match FormFile::from_field(field, multipart) {
                    Ok(file) => {
                        files.push(file);
                    },
                    Err(e) => {
                        proof {
                            lemma_collected_fault(multipart@, ctx.name(), i as int + 1);
                        }
                        return Err(e);
                    },
                }
            }
            i += 1;
        }
        assert(multipart@.take(i as int) == multipart@);
        Ok(FileCollection(files))
    }
}

} // verus!
