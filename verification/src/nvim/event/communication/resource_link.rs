//! The record of a resource link.

use crate::apc::error::ProtocolError;
use crate::apc::protocol::content::ResourceLink;
use crate::nvim::event::annotations::{annotations_dictionary, optional_annotations};
use crate::nvim::value::{
    dictionary_entries, insert_integer, insert_record, insert_text, optional_field,
    optional_text, Fields, Value,
};
use nvim_oxi::Dictionary;
use vstd::prelude::*;

verus! {

/// The record of a resource link: `name` and `uri`, then `description`,
/// `mimeType`, `size`, `title`, `annotations` and `meta` where the link has
/// them.
pub open spec fn resource_link_fields(link: ResourceLink) -> Fields {
    seq![("name"@, Value::Text(link.name@)), ("uri"@, Value::Text(link.uri@))] + optional_text(
        "description"@,
        link.description,
    ) + optional_text("mimeType"@, link.mime_type) + optional_field(
        "size"@,
        match link.size {
            Some(size) => Some(Value::Integer(size as int)),
            None => None,
        },
    ) + optional_text("title"@, link.title) + optional_annotations(link.annotations)
        + optional_text("meta"@, link.meta)
}

pub(crate) fn resource_link_dictionary(link: &ResourceLink) -> (dict: Dictionary)
    ensures
        dictionary_entries(dict) == resource_link_fields(*link),
{
    let mut dict = Dictionary::new();
    insert_text(&mut dict, "name", link.name.as_str());
    insert_text(&mut dict, "uri", link.uri.as_str());
    if let Some(description) = &link.description {
        insert_text(&mut dict, "description", description.as_str());
    }
    if let Some(mime_type) = &link.mime_type {
        insert_text(&mut dict, "mimeType", mime_type.as_str());
    }
    if let Some(size) = link.size {
        insert_integer(&mut dict, "size", size);
    }
    if let Some(title) = &link.title {
        insert_text(&mut dict, "title", title.as_str());
    }
    if let Some(annotations) = &link.annotations {
        insert_record(&mut dict, "annotations", annotations_dictionary(annotations));
    }
    if let Some(meta) = &link.meta {
        insert_text(&mut dict, "meta", meta.as_str());
    }
    assert(dictionary_entries(dict) =~= resource_link_fields(*link));
    dict
}

/// Translates a resource link into its record and the tag `ResourceLink`.
/// It never fails.
pub fn resource_link_event(link: ResourceLink) -> (result: Result<
    (Dictionary, String),
    ProtocolError,
>)
    ensures
        result is Ok,
        dictionary_entries(result->Ok_0.0) == resource_link_fields(link),
        result->Ok_0.1@ == "ResourceLink"@,
{
    let dict = resource_link_dictionary(&link);
    Ok((dict, "ResourceLink".to_owned()))
}

} // verus!
