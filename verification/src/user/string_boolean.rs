//! Truth values that the server writes as the texts `true` and `false`.

use vstd::prelude::*;
use vstd::string::StringExecFns;
use crate::json::{Json, JsonError, JsonView};
use crate::text::same_text;

verus! {

/// The truth value that `value` stands for: the text `true` or the text `false`.
pub open spec fn decoded_flag(value: JsonView) -> Option<bool> {
    match value {
        JsonView::String(text) => if text == "true"@ {
            Some(true)
        } else if text == "false"@ {
            Some(false)
        } else {
            None
        },
        _ => None,
    }
}

/// The value that stands for a truth value.
pub open spec fn encoded_flag(is_true: bool) -> JsonView {
    JsonView::String(
        if is_true {
            "true"@
        } else {
            "false"@
        },
    )
}

/// Reads a truth value from the text `true` or `false`.
pub fn deserialize(value: &Json) -> (flag: Result<bool, JsonError>)
    ensures
        match decoded_flag(value@) {
            Some(b) => flag matches Ok(f) && f == b,
            None => flag matches Err(JsonError::Shape),
        },
{
    match value {
        Json::String(text) => {
            if same_text(text.as_str(), "true") {
                Ok(true)
            } else if same_text(text.as_str(), "false") {
                Ok(false)
            } else {
                Err(JsonError::Shape)
            }
        },
        _ => Err(JsonError::Shape),
    }
}

/// Writes a truth value as the text `true` or `false`.
pub fn serialize(is_true: &bool) -> (value: Json)
    ensures
        value@ == encoded_flag(*is_true),
{
    if *is_true {
        Json::String(String::from_str("true"))
    } else {
        Json::String(String::from_str("false"))
    }
}

/// What is written for a truth value is read as that truth value.
pub proof fn flag_round_trip(is_true: bool)
    ensures
        decoded_flag(encoded_flag(is_true)) == Some(is_true),
{
    reveal_strlit("true");
    reveal_strlit("false");
    assert("true"@.len() != "false"@.len());
}

} // verus!
