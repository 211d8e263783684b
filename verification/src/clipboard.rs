//! Clipboard payloads as the store records them.

use vstd::prelude::*;
use vstd::string::*;

verus! {

/// What kind of payload the clipboard held when it was read.
#[derive(PartialEq, Eq, Structural, Clone, Copy, Debug)]
pub enum ClipboardType {
    Text,
    Image,
}

impl ClipboardType {
    /// The fixed label of the payload kind.
    pub open spec fn spec_str(self) -> Seq<char> {
        match self {
            ClipboardType::Text => "Text"@,
            ClipboardType::Image => "Image"@,
        }
    }

    /// Label of the payload kind, as the store serializes it.
    pub fn as_str(&self) -> (r: String)
        ensures
            r@ == self.spec_str(),
    {
        match self {
            ClipboardType::Text => String::from_str("Text"),
            ClipboardType::Image => String::from_str("Image"),
        }
    }
}

/// Mathematical image of a [`ClipboardContent`].
#[verifier::ext_equal]
pub struct ClipboardContentV {
    pub content: Seq<char>,
    pub clipboard_type: ClipboardType,
}

/// A clipboard payload: the text read, or the text decoded from an image.
#[derive(Debug)]
pub struct ClipboardContent {
    pub content: String,
    pub clipboard_type: ClipboardType,
}

impl View for ClipboardContent {
    type V = ClipboardContentV;

    open spec fn view(&self) -> ClipboardContentV {
        ClipboardContentV { content: self.content@, clipboard_type: self.clipboard_type }
    }
}

impl Clone for ClipboardContent {
    fn clone(&self) -> (r: Self)
        ensures
            r == *self,
    {
        ClipboardContent { content: self.content.clone(), clipboard_type: self.clipboard_type }
    }
}

} // verus!
