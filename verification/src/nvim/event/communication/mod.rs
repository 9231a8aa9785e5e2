//! The records of content blocks.

pub mod image;
pub mod resource;
pub mod resource_link;
pub mod text;

pub use image::image_event;
pub use resource::resource_event;
pub use resource_link::resource_link_event;
pub use text::text_event;

use crate::apc::error::{ProtocolError, ProtocolFailure, TranslationError};
use crate::apc::protocol::content::ContentBlock;
use crate::nvim::event::communication::image::{image_dictionary, image_fields};
use crate::nvim::event::communication::resource::{resource_dictionary, resource_fields};
use crate::nvim::event::communication::resource_link::{
    resource_link_dictionary, resource_link_fields,
};
use crate::nvim::event::communication::text::{text_dictionary, text_fields};
use crate::nvim::value::{dictionary_entries, Fields};
use nvim_oxi::Dictionary;
use vstd::prelude::*;

verus! {

/// The record of a content block, where it has one. Audio has none.
pub open spec fn content_fields(content: ContentBlock) -> Fields {
    match content {
        ContentBlock::Text(text) => text_fields(text),
        ContentBlock::Image(image) => image_fields(image),
        ContentBlock::ResourceLink(link) => resource_link_fields(link),
        ContentBlock::Resource(block) => resource_fields(block),
        ContentBlock::Audio(_) => Seq::empty(),
    }
}

/// The name of a content block's kind, by which its event is routed.
pub open spec fn content_tag(content: ContentBlock) -> Seq<char> {
    match content {
        ContentBlock::Text(_) => "Text"@,
        ContentBlock::Image(_) => "Image"@,
        ContentBlock::ResourceLink(_) => "ResourceLink"@,
        ContentBlock::Resource(_) => "Resource"@,
        ContentBlock::Audio(_) => "Audio"@,
    }
}

/// What the translation of a content block comes to: its record and tag, or
/// the failure for audio.
pub open spec fn content_outcome(content: ContentBlock) -> Result<
    (Fields, Seq<char>),
    ProtocolFailure,
> {
    match content {
        ContentBlock::Audio(_) => Err(ProtocolFailure::MethodNotFound),
        _ => Ok((content_fields(content), content_tag(content))),
    }
}

pub(crate) fn content_dictionary(content: &ContentBlock) -> (result: Result<
    (Dictionary, &'static str),
    ProtocolError,
>)
    ensures
        match content_outcome(*content) {
            Ok((fields, tag)) => result is Ok && dictionary_entries(result->Ok_0.0) == fields
                && result->Ok_0.1@ == tag,
            Err(failure) => result is Err && result->Err_0@ == failure,
        },
{
    match content {
        ContentBlock::Resource(block) => Ok((resource_dictionary(block), "Resource")),
        ContentBlock::ResourceLink(link) => Ok((resource_link_dictionary(link), "ResourceLink")),
        ContentBlock::Image(image) => Ok((image_dictionary(image), "Image")),
        ContentBlock::Text(text) => Ok((text_dictionary(text), "Text")),
        ContentBlock::Audio(_) => Err(TranslationError::UnsupportedVariant.into_protocol_error()),
    }
}

/// Translates a content block into its record and the name of its kind.
/// Audio has no rendering and fails with `MethodNotFound`.
pub fn communication(content: ContentBlock) -> (result: Result<(Dictionary, String), ProtocolError>)
    ensures
        match content_outcome(content) {
            Ok((fields, tag)) => result is Ok && dictionary_entries(result->Ok_0.0) == fields
                && result->Ok_0.1@ == tag,
            Err(failure) => result is Err && result->Err_0@ == failure,
        },
        content is Audio <==> result is Err,
{
    match content_dictionary(&content) {
        Ok((dict, tag)) => Ok((dict, tag.to_owned())),
        Err(error) => Err(error),
    }
}

} // verus!
