//! The record of an image block.

use crate::apc::error::ProtocolError;
use crate::apc::protocol::content::ImageContent;
use crate::nvim::event::annotations::{annotations_dictionary, optional_annotations};
use crate::nvim::value::{
    dictionary_entries, has_key, insert_record, insert_text, optional_text, Fields, Value,
};
use nvim_oxi::Dictionary;
use vstd::prelude::*;

verus! {

/// The record of an image block: `data` and `mimeType`, then `uri`,
/// `annotations` and `meta` where the block has them.
pub open spec fn image_fields(image: ImageContent) -> Fields {
    seq![("data"@, Value::Text(image.data@)), ("mimeType"@, Value::Text(image.mime_type@))]
        + optional_text("uri"@, image.uri) + optional_annotations(image.annotations)
        + optional_text("meta"@, image.meta)
}

pub(crate) fn image_dictionary(image: &ImageContent) -> (dict: Dictionary)
    ensures
        dictionary_entries(dict) == image_fields(*image),
{
    let mut dict = Dictionary::new();
    insert_text(&mut dict, "data", image.data.as_str());
    insert_text(&mut dict, "mimeType", image.mime_type.as_str());
    if let Some(uri) = &image.uri {
        insert_text(&mut dict, "uri", uri.as_str());
    }
    if let Some(annotations) = &image.annotations {
        insert_record(&mut dict, "annotations", annotations_dictionary(annotations));
    }
    if let Some(meta) = &image.meta {
        insert_text(&mut dict, "meta", meta.as_str());
    }
    assert(dictionary_entries(dict) =~= image_fields(*image));
    dict
}

/// An image block without a URI has no `uri` key in its record.
pub proof fn lemma_image_without_uri(image: ImageContent)
    requires
        image.uri is None,
    ensures
        !has_key(image_fields(image), "uri"@),
{
    reveal_strlit("uri");
    reveal_strlit("data");
    reveal_strlit("mimeType");
    reveal_strlit("annotations");
    reveal_strlit("meta");
    let fields = image_fields(image);
    let notes = optional_annotations(image.annotations);
    assert("uri"@.len() == 3);
    assert("data"@.len() == 4);
    assert("mimeType"@.len() == 8);
    assert("annotations"@.len() == 11);
    assert("meta"@.len() == 4);
    assert forall|i: int| 0 <= i < fields.len() implies #[trigger] fields[i].0 != "uri"@ by {
        if i >= 2 && i - 2 >= notes.len() {
            assert(fields[i] == optional_text("meta"@, image.meta)[i - 2 - notes.len()]);
        }
    }
}

/// Translates an image block into its record and the tag `Image`. It never
/// fails.
pub fn image_event(image: ImageContent) -> (result: Result<(Dictionary, String), ProtocolError>)
    ensures
        result is Ok,
        dictionary_entries(result->Ok_0.0) == image_fields(image),
        result->Ok_0.1@ == "Image"@,
        image.uri is None ==> !has_key(dictionary_entries(result->Ok_0.0), "uri"@),
{
    let dict = image_dictionary(&image);
    proof {
        if image.uri is None {
            lemma_image_without_uri(image);
        }
    }
    Ok((dict, "Image".to_owned()))
}

} // verus!
