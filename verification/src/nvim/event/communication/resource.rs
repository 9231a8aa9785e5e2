//! The record of an embedded resource.

use crate::apc::error::ProtocolError;
use crate::apc::protocol::content::{EmbeddedResource, EmbeddedResourceResource};
use crate::nvim::event::annotations::{annotations_dictionary, optional_annotations};
use crate::nvim::value::{
    dictionary_entries, insert_record, insert_text, optional_text, Fields, Value,
};
use nvim_oxi::Dictionary;
use vstd::prelude::*;

verus! {

/// The inner record of an embedded resource: `text` or `blob`, as the
/// contents are text or binary, then `uri`, then `mimeType` where it is known.
pub open spec fn resource_contents_fields(resource: EmbeddedResourceResource) -> Fields {
    match resource {
        EmbeddedResourceResource::TextResourceContents(contents) => seq![
            ("text"@, Value::Text(contents.text@)),
            ("uri"@, Value::Text(contents.uri@)),
        ] + optional_text("mimeType"@, contents.mime_type),
        EmbeddedResourceResource::BlobResourceContents(contents) => seq![
            ("blob"@, Value::Text(contents.blob@)),
            ("uri"@, Value::Text(contents.uri@)),
        ] + optional_text("mimeType"@, contents.mime_type),
    }
}

/// The record of an embedded resource: `resource`, then `annotations` and
/// `meta` where the block has them.
pub open spec fn resource_fields(block: EmbeddedResource) -> Fields {
    seq![("resource"@, Value::Record(resource_contents_fields(block.resource)))]
        + optional_annotations(block.annotations) + optional_text("meta"@, block.meta)
}

pub(crate) fn resource_contents_dictionary(resource: &EmbeddedResourceResource) -> (dict:
    Dictionary)
    ensures
        dictionary_entries(dict) == resource_contents_fields(*resource),
{
    let mut inner = Dictionary::new();
    match resource {
        EmbeddedResourceResource::TextResourceContents(contents) => {
            insert_text(&mut inner, "text", contents.text.as_str());
            insert_text(&mut inner, "uri", contents.uri.as_str());
            if let Some(mime_type) = &contents.mime_type {
                insert_text(&mut inner, "mimeType", mime_type.as_str());
            }
        },
        EmbeddedResourceResource::BlobResourceContents(contents) => {
            insert_text(&mut inner, "blob", contents.blob.as_str());
            insert_text(&mut inner, "uri", contents.uri.as_str());
            if let Some(mime_type) = &contents.mime_type {
                insert_text(&mut inner, "mimeType", mime_type.as_str());
            }
        },
    }
    assert(dictionary_entries(inner) =~= resource_contents_fields(*resource));
    inner
}

pub(crate) fn resource_dictionary(block: &EmbeddedResource) -> (dict: Dictionary)
    ensures
        dictionary_entries(dict) == resource_fields(*block),
{
    let mut dict = Dictionary::new();
    insert_record(&mut dict, "resource", resource_contents_dictionary(&block.resource));
    if let Some(annotations) = &block.annotations {
        insert_record(&mut dict, "annotations", annotations_dictionary(annotations));
    }
    if let Some(meta) = &block.meta {
        insert_text(&mut dict, "meta", meta.as_str());
    }
    assert(dictionary_entries(dict) =~= resource_fields(*block));
    dict
}

/// Translates an embedded resource into its record and the tag `Resource`.
/// It never fails.
pub fn resource_event(block: EmbeddedResource) -> (result: Result<
    (Dictionary, String),
    ProtocolError,
>)
    ensures
        result is Ok,
        dictionary_entries(result->Ok_0.0) == resource_fields(block),
        result->Ok_0.1@ == "Resource"@,
{
    let dict = resource_dictionary(&block);
    Ok((dict, "Resource".to_owned()))
}

} // verus!
