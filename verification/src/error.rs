//! The failures of a conversion.
use vstd::prelude::*;
use vstd::string::*;

verus! {

/// An error that occurred while converting a multipart form.
#[derive(Debug, Clone)]
pub enum Error {
    /// The byte-stream parser failed; this is its own description of why.
    MultipartError(String),
    /// A conversion that resolves a field by name was given no name.
    MissingContext,
    /// No field of the form bears the name that the context asks for.
    FieldNotFound { name: String },
    /// The field has no name, and the conversion needs one.
    MissingName,
    /// The field is not a file: it has no file name.
    MissingFileName,
    /// The text does not parse as the target type.
    Parse { text: String, target: String },
    /// Any other failure, such as one raised by a custom conversion.
    Other(String),
}

impl Error {
    /// Constructs an error of the caller's own, with the given message.
    pub fn new(message: &str) -> (e: Error)
        ensures
            e matches Error::Other(m) && m@ == message@,
    {
        Error::Other(message.to_owned())
    }

    /// Constructs an error from the byte-stream parser's description of its
    /// failure.
    pub fn from_multer(description: &str) -> (e: Error)
        ensures
            e matches Error::MultipartError(m) && m@ == description@,
    {
        Error::MultipartError(description.to_owned())
    }

    /// The description of an error for people.
    pub open spec fn message_text(self) -> Seq<char> {
        match self {
            Error::MultipartError(description) => description@,
            Error::MissingContext => "FormContext does not specified a field to parse"@,
            Error::FieldNotFound { name } => "`"@ + name@ + "` form field was not found"@,
            Error::MissingName => "field does not have a name"@,
            Error::MissingFileName => "file does not have a name"@,
            Error::Parse { text, target } => "cannot parse `"@ + text@ + "` as "@ + target@,
            Error::Other(message) => message@,
        }
    }

    /// A description of the error for people.
    pub fn message(&self) -> (text: String)
        ensures
            text@ == self.message_text(),
    {
        match self {
            Error::MultipartError(description) => description.clone(),
            Error::MissingContext => "FormContext does not specified a field to parse".to_owned(),
            Error::FieldNotFound { name } => {
                let mut text = "`".to_owned();
                text.append(name.as_str());
                text.append("` form field was not found");
                text
            },
            Error::MissingName => "field does not have a name".to_owned(),
            Error::MissingFileName => "file does not have a name".to_owned(),
            Error::Parse { text, target } => {
                let mut out = "cannot parse `".to_owned();
                out.append(text.as_str());
                out.append("` as ");
                out.append(target.as_str());
                out
            },
            Error::Other(message) => message.clone(),
        }
    }
}

} // verus!
