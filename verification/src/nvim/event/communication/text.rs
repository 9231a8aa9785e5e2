//! The record of a text block.

use crate::apc::error::ProtocolError;
use crate::apc::protocol::content::TextContent;
use crate::nvim::event::annotations::{annotations_dictionary, optional_annotations};
use crate::nvim::value::{
    dictionary_entries, insert_record, insert_text, optional_text, Fields, Value,
};
use nvim_oxi::Dictionary;
use vstd::prelude::*;

verus! {

/// The record of a text block: `text`, then `annotations` and `meta` where
/// the block has them.
pub open spec fn text_fields(text: TextContent) -> Fields {
    seq![("text"@, Value::Text(text.text@))] + optional_annotations(text.annotations)
        + optional_text("meta"@, text.meta)
}

pub(crate) fn text_dictionary(text: &TextContent) -> (dict: Dictionary)
    ensures
        dictionary_entries(dict) == text_fields(*text),
{
    let mut dict = Dictionary::new();
    insert_text(&mut dict, "text", text.text.as_str());
    if let Some(annotations) = &text.annotations {
        insert_record(&mut dict, "annotations", annotations_dictionary(annotations));
    }
    if let Some(meta) = &text.meta {
        insert_text(&mut dict, "meta", meta.as_str());
    }
    assert(dictionary_entries(dict) =~= text_fields(*text));
    dict
}

/// Translates a text block into its record and the tag `Text`. It never
/// fails. A block that holds only a body gives the record of the one pair
/// `text`.
pub fn text_event(text: TextContent) -> (result: Result<(Dictionary, String), ProtocolError>)
    ensures
        result is Ok,
        dictionary_entries(result->Ok_0.0) == text_fields(text),
        result->Ok_0.1@ == "Text"@,
        text.annotations is None && text.meta is None ==> dictionary_entries(result->Ok_0.0)
            == seq![("text"@, Value::Text(text.text@))],
{
    let dict = text_dictionary(&text);
    proof {
        if text.annotations is None && text.meta is None {
            assert(text_fields(text) =~= seq![("text"@, Value::Text(text.text@))]);
        }
    }
    Ok((dict, "Text".to_owned()))
}

} // verus!
