//! The text form of the root record and of a whole request: the XML document
//! that is posted, the names of the upload parts, and the reading of the
//! gateway's answer.

use vstd::prelude::*;
use vstd::string::*;
use crate::api::Pixelletter;
use crate::api::PixelletterView;
use crate::codec::document_element;
use crate::codec::pixelletter_from_element;
use crate::decimal::decimal_digits;
use crate::decimal::push_decimal;
use crate::node::DecodeError;
use crate::reader::document_tree;
use crate::reader::parse_document;
use crate::xml::element_xml;

verus! {

/// The address that requests are posted to.
pub const BASE_URL: &'static str = "https://www.pixelletter.de/xml/index.php";

/// The declaration that every posted document begins with.
pub const XML_HEADER: &'static str = "<?xml version=\"1.0\" encoding=\"UTF-8\" standalone=\"yes\"?>";

/// The name of the request part that carries the document.
pub const XML_PART: &'static str = "xml";

/// The text of the root record.
pub open spec fn pixelletter_xml(value: PixelletterView) -> Seq<char> {
    element_xml(document_element(value))
}

/// The document that is posted for a root record: the declaration, then the
/// record's text.
pub open spec fn request_document(value: PixelletterView) -> Seq<char> {
    XML_HEADER@ + pixelletter_xml(value)
}

/// The name of the request part that carries the attachment at place
/// `index`, counted from zero.
pub open spec fn upload_part_name(index: nat) -> Seq<char> {
    "uploadfile"@ + decimal_digits(index)
}

/// What reading a document gives: the record that its root element holds, or
/// why there is none. A text that is not well-formed has no root element.
pub open spec fn decoded_document(text: Seq<char>) -> Result<PixelletterView, DecodeError> {
    match document_tree(text) {
        Some(root) => pixelletter_from_element(root),
        None => Err(DecodeError::NotWellFormed),
    }
}

impl Pixelletter {
    /// Writes the record as XML text.
    pub fn to_xml(&self) -> (r: String)
        ensures
            r@ == pixelletter_xml(self@),
    {
        self.to_element("pixelletter").to_xml()
    }

    /// Writes the document that is posted for the record.
    pub fn to_request_document(&self) -> (r: String)
        ensures
            r@ == request_document(self@),
    {
        let mut out = String::from_str(XML_HEADER);
        let body = self.to_xml();
        out.append(body.as_str());
        out
    }

    /// Reads a record from XML text: a text that is not well-formed is refused
    /// as such, and otherwise the root element of the document is read.
    pub fn from_xml(text: &str) -> (r: Result<Pixelletter, DecodeError>)
        ensures
            match r {
                Ok(value) => decoded_document(text@) == Ok::<PixelletterView, DecodeError>(
                    value@,
                ),
                Err(e) => decoded_document(text@) == Err::<PixelletterView, DecodeError>(e),
            },
    {
        match parse_document(text) {
            Some(root) => Pixelletter::from_element(&root),
            None => Err(DecodeError::NotWellFormed),
        }
    }
}

/// The name of the request part that carries the attachment at place `index`.
pub fn upload_name(index: usize) -> (r: String)
    ensures
        r@ == upload_part_name(index as nat),
{
    let mut out = String::from_str("uploadfile");
    push_decimal(&mut out, index as u64);
    out
}

} // verus!
