//! Files attached to posts.

use vstd::prelude::*;
use crate::json::{Decode, Encode, Json, JsonView};

verus! {

/// The text by which the server knows an uploaded file.
#[derive(Debug, PartialEq, Eq)]
pub struct FileId(pub String);

impl DeepView for FileId {
    type V = Seq<char>;

    open spec fn deep_view(&self) -> Seq<char> {
        self.0@
    }
}

/// A file is named by a JSON string.
impl Decode for FileId {
    open spec fn decoded(value: JsonView) -> Option<Seq<char>> {
        value.text()
    }

    fn decode(value: &Json) -> (record: Option<FileId>) {
        match value.text() {
            Some(text) => Some(FileId(text.clone())),
            None => None,
        }
    }
}

impl Encode for FileId {
    open spec fn encoded(record: Seq<char>) -> JsonView {
        JsonView::String(record)
    }

    fn encode(&self) -> (value: Json) {
        Json::String(self.0.clone())
    }
}

} // verus!
