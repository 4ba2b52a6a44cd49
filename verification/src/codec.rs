//! Text out of bytes: which encoding a content type names, and the decoding
//! itself. Both are the work of outside crates; this module names their
//! results and calls them.
use crate::multipart_form::MAX_FIELD_BYTES;
use vstd::prelude::*;

verus! {

/// Whether `encoding_rs::Encoding::for_label` knows an encoding by this label.
pub uninterp spec fn label_known(label: Seq<char>) -> bool;

/// The text that `encoding_rs::Encoding::decode` makes of `bytes` under the
/// encoding that `label` names.
pub uninterp spec fn decoded_as(label: Seq<char>, bytes: Seq<u8>) -> Seq<char>;

/// The value of the `charset` parameter that `mime::Mime::get_param` finds in
/// a media type, if the text is a media type and has that parameter.
pub uninterp spec fn charset_param(content_type: Seq<char>) -> Option<Seq<char>>;

/// `encoding_rs::Encoding::for_label`: whether the label, trimmed and in
/// lower case, is one of the labels of the Encoding Standard. `utf-8` is one.
#[verifier::external_body]
pub(crate) fn label_is_known(label: &str) -> (known: bool)
    ensures
        known == label_known(label@),
        label@ == "utf-8"@ ==> known,
{
    encoding_rs::Encoding::for_label(label.as_bytes()).is_some()
}

/// `encoding_rs::Encoding::decode` on the encoding of a known label: the
/// whole input decoded, a byte order mark sniffed and left out, malformed
/// sequences replaced. The call reserves up to three times the input's
/// length, so the input is bounded.
#[verifier::external_body]
pub(crate) fn decode_label(label: &str, bytes: &Vec<u8>) -> (text: String)
    requires
        label_known(label@),
        bytes@.len() <= MAX_FIELD_BYTES,
    ensures
        text@ == decoded_as(label@, bytes@),
{
    let encoding = encoding_rs::Encoding::for_label(label.as_bytes()).unwrap();
    let (text, _, _) = encoding.decode(bytes.as_slice());
    text.into_owned()
}

/// `mime::Mime::get_param` with `mime::CHARSET`, on the media type that the
/// text parses to: the parameter's value, or `None` where the text is no
/// media type or has no such parameter.
#[verifier::external_body]
pub(crate) fn content_type_charset(content_type: &str) -> (charset: Option<String>)
    ensures
        match charset {
            Some(label) => charset_param(content_type@) == Some(label@),
            None => charset_param(content_type@) is None,
        },
{
    match content_type.parse::<mime::Mime>() {
        Ok(media_type) => match media_type.get_param(mime::CHARSET) {
            Some(value) => Some(value.as_str().to_owned()),
            None => None,
        },
        Err(_) => None,
    }
}

} // verus!
