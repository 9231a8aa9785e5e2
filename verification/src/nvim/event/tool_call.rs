//! The record of a tool call.

use crate::apc::error::{ProtocolError, ProtocolFailure};
use crate::apc::protocol::tool_call::{ToolCall, ToolCallContent};
use crate::nvim::event::tool_call_content::{
    content_array, content_paths, items_outcome, location_paths, locations_array,
    locations_outcome, FileRead,
};
use crate::nvim::value::{
    array_items, dictionary_entries, insert_list, insert_optional_text, insert_text,
    optional_text, Fields, Value,
};
use nvim_oxi::Dictionary;
use vstd::prelude::*;

verus! {

/// The files that the translation of a tool call needs, in the order in which
/// it uses their reads: first the files of the diffs among its content, then
/// the files of its locations.
pub open spec fn tool_call_paths(call: ToolCall) -> Seq<Seq<char>> {
    content_paths(call.content@, call.content@.len() as int) + location_paths(
        call.locations@,
        call.locations@.len() as int,
    )
}

/// The record of a tool call whose content and locations came to `content`
/// and `locations`: `id`, `title`, `kind`, `status`, `content`, `locations`,
/// then `input` and `output` where the call has them.
pub open spec fn tool_call_fields(call: ToolCall, content: Seq<Value>, locations: Seq<Value>) -> Fields {
    seq![
        ("id"@, Value::Text(call.tool_call_id@)),
        ("title"@, Value::Text(call.title@)),
        ("kind"@, Value::Text(call.kind.name())),
        ("status"@, Value::Text(call.status.name())),
        ("content"@, Value::List(content)),
        ("locations"@, Value::List(locations)),
    ] + optional_text("input"@, call.raw_input) + optional_text("output"@, call.raw_output)
}

/// What the translation of a tool call comes to, given the outcomes of
/// reading the files of `tool_call_paths`: its record, or the failure of the
/// first content item that fails, or else of the first location that fails.
pub open spec fn tool_call_outcome(call: ToolCall, reads: Seq<FileRead>) -> Result<
    Fields,
    ProtocolFailure,
> {
    match items_outcome(call.content@, reads, 0, call.content@.len() as int) {
        Err(failure) => Err(failure),
        Ok(content) => match locations_outcome(
            call.locations@,
            reads,
            content_paths(call.content@, call.content@.len() as int).len() as int,
            call.locations@.len() as int,
        ) {
            Err(failure) => Err(failure),
            Ok(locations) => Ok(tool_call_fields(call, content, locations)),
        },
    }
}

/// The paths of the files whose contents the translation of `call` needs.
/// The caller reads them and hands the outcomes to `tool_call_event` in the
/// same order.
pub fn required_paths(call: &ToolCall) -> (paths: Vec<String>)
    ensures
        paths@.len() == tool_call_paths(*call).len(),
        forall|k: int| 0 <= k < paths@.len() ==> (#[trigger] paths@[k])@ == tool_call_paths(*call)[k],
{
    let mut paths: Vec<String> = Vec::new();
    let mut i: usize = 0;
    while i < call.content.len()
        invariant
            i <= call.content.len(),
            paths@.len() == content_paths(call.content@, i as int).len(),
            forall|k: int|
                0 <= k < paths@.len() ==> (#[trigger] paths@[k])@ == content_paths(
                    call.content@,
                    i as int,
                )[k],
        decreases call.content.len() - i,
    {
        if let ToolCallContent::Diff(diff) = &call.content[i] {
            paths.push(diff.path.clone());
        }
        i += 1;
    }
    let ghost from_content = content_paths(call.content@, call.content@.len() as int);
    let mut j: usize = 0;
    while j < call.locations.len()
        invariant
            j <= call.locations.len(),
            from_content == content_paths(call.content@, call.content@.len() as int),
            paths@.len() == (from_content + location_paths(call.locations@, j as int)).len(),
            forall|k: int|
                0 <= k < paths@.len() ==> (#[trigger] paths@[k])@ == (from_content
                    + location_paths(call.locations@, j as int))[k],
        decreases call.locations.len() - j,
    {
        paths.push(call.locations[j].path.clone());
        j += 1;
    }
    paths
}

/// Translates a tool call into its record, given the outcomes of reading the
/// files named by `required_paths`, in that order.
///
/// Fails where an item of the content or a location fails: with
/// `MethodNotFound` for audio content, with an internal error that names the
/// path and the cause for a file that could not be read. The failure of one
/// item aborts the translation of the whole call.
pub fn tool_call_event(tool_call: ToolCall, reads: Vec<FileRead>) -> (result: Result<
    Dictionary,
    ProtocolError,
>)
    ensures
        match tool_call_outcome(tool_call, reads@) {
            Ok(fields) => result is Ok && dictionary_entries(result->Ok_0) == fields,
            Err(failure) => result is Err && result->Err_0@ == failure,
        },
{
    let mut data = Dictionary::new();
    insert_text(&mut data, "id", tool_call.tool_call_id.as_str());
    insert_text(&mut data, "title", tool_call.title.as_str());
    insert_text(&mut data, "kind", tool_call.kind.as_str());
    insert_text(&mut data, "status", tool_call.status.as_str());
    let (content, next) = match content_array(&tool_call.content, &reads, 0) {
        Ok(translated) => translated,
        Err(error) => {
            return Err(error);
        },
    };
    let ghost content_values = array_items(content);
    insert_list(&mut data, "content", content);
    let locations = match locations_array(&tool_call.locations, &reads, next) {
        Ok(translated) => translated,
        Err(error) => {
            return Err(error);
        },
    };
    let ghost location_values = array_items(locations);
    insert_list(&mut data, "locations", locations);
    insert_optional_text(&mut data, "input", &tool_call.raw_input);
    insert_optional_text(&mut data, "output", &tool_call.raw_output);
    assert(dictionary_entries(data) =~= tool_call_fields(
        tool_call,
        content_values,
        location_values,
    ));
    Ok(data)
}

} // verus!
