//! Typed values out of a buffered multipart form.
//!
//! A form is an ordered store of fields ([`MultipartForm`]). Two capabilities
//! convert it:
//!
//! - [`FromMultipartField`] makes one value out of one field. Types with a
//!   textual form ([`FromText`]) read the field's content; containers read
//!   every field of the form and keep what converts.
//! - [`FromMultipart`] makes one value out of the whole form, under a
//!   context that may name a field. Scalars and files take the first field
//!   of that name; optional members never fail; lists take every field that
//!   converts; maps take every named field, keyed by its name.
//!
//! A record is assembled member by member. [`derive::derive_from_multipart`]
//! resolves, from the record's declaration and the directives of its
//! members, which field name each member is matched against and which
//! conversion produces it. [`assemble::assemble`] runs such a derivation on
//! a form; [`derive::Derivation::emit`] writes it out as the source text of
//! an implementation of [`FromMultipart`].
//!
//! The two traits are open: users implement them for their own types, so
//! their methods carry no contract of their own. Every implementation in
//! this crate states what it returns, and generic code speaks of what an
//! implementation returns through `call_ensures`. The module [`laws`] holds
//! what follows for every form.
//!
//! Decoding text, guessing media types, checking paths and the ordered map
//! of the form builder are the work of other crates; the functions that call
//! them are marked `external_body` and say in their doc comments what is
//! taken on trust.
pub mod assemble;
pub mod codec;
pub mod containers;
pub mod dates;
pub mod derive;
pub mod directive;
pub mod directive_laws;
pub mod emit;
pub mod error;
pub mod file_collection;
pub mod form_file;
pub mod from_multipart;
pub mod from_multipart_field;
pub mod helpers;
pub mod identifiers;
pub mod integers;
pub mod json;
pub mod laws;
pub mod leaves;
pub mod literal;
pub mod maps;
pub mod multipart_form;
pub mod ordered_maps;
pub mod paths;
pub mod text;
pub mod wrappers;

pub use error::Error;
pub use file_collection::FileCollection;
pub use form_file::FormFile;
pub use from_multipart::{FormContext, FromMultipart};
pub use from_multipart_field::FromMultipartField;
pub use multipart_form::{FieldParts, MultipartField, MultipartForm};
pub use text::FromText;
